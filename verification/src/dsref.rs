//! The data source reference of a diagram: a tree of typed, named nodes.

use std::collections::BTreeMap;
use vstd::prelude::*;
use crate::dtyp::{parse_variant, spec_variant, Variant, VariantView};
use crate::error::{Error, ErrorKind};
use crate::guid::{parse_guid, spec_guid, Guid};
use crate::parser::{
    le_u16, le_u32, le_u64, parse_u32_bytes_wstring_nt, spec_le_u16, spec_le_u32, spec_le_u64,
    spec_u32_bytes_wstring_nt, viewed,
};

verus! {

/// Microsoft Data Tools DSRef Object (ProgID `DSRefObject2.Simple`, from `mdt2fref.dll`)
pub const CLSID_DSREF_R2: Guid = 0xe9b0e6db_811c_11d0_ad51_00a0c90f5739;

pub const CLSID_DSREF_R1: Guid = 0xab36de40_2bf4_11ce_ab3c_00aa004404fb;

/// Microsoft Visual Studio Data DSRef Object
pub const CLSID_DSREF: Guid = 0xe09ee6ac_fef0_41ae_9f77_3c394da49849;

/// The ProgID of the Microsoft Data Tools DSRef Object
pub const PROGID_DSREF_R2: &'static str = "DSRefObject2.Simple";

/// The property that names the data provider, as a GUID in braces
pub const GUID_DSREF_PROPERTY_PROVIDER: Guid = 0xb30985d6_6bbb_45f2_9ab8_371664f03270;

/// The property of the precise type, a 32-bit integer
pub const GUID_DSREF_PROPERTY_PRECISE_TYPE: Guid = 0x39a5a7e7_513f_44a4_b79d_7652cd8962d9;

/// The property of the qualifier
pub const GUID_DSREF_PROPERTY_QUALIFIER: Guid = 0x4656baea_f397_11ce_bfe1_00aa0057b34e;

pub const IID_IDSREF_CONSUMER: Guid = 0xab36de42_2bf4_11ce_ab3c_00aa004404fb;

pub const IID_IDSREF_PROVIDER: Guid = 0xab36de41_2bf4_11ce_ab3c_00aa004404fb;

/// .NET Framework Data Provider for SQL Server
pub const DATA_PROVIDER_FOR_SQL_SERVER: Guid = 0x1634cdd7_0888_42e3_9fa2_b6d32563b91d;

/// Number of 100 ns ticks in one second.
pub const WINDOWS_TICK: u64 = 10_000_000;

/// Seconds from 1601-01-01 to 1970-01-01.
pub const SEC_TO_UNIX_EPOCH: u64 = 11_644_473_600;

/// Converts a count of 100 ns ticks since 1601-01-01 into seconds since 1970-01-01.
pub fn windows_tick_to_unix_seconds(windows_ticks: u64) -> (seconds: u64)
    requires
        windows_ticks / WINDOWS_TICK >= SEC_TO_UNIX_EPOCH,
    ensures
        seconds == windows_ticks / WINDOWS_TICK - SEC_TO_UNIX_EPOCH,
{
    windows_ticks / WINDOWS_TICK - SEC_TO_UNIX_EPOCH
}

/// The flag word of a node: its kind, and which parts follow it in the stream.
///
/// A value holds recognized bits only; its model is the word itself.
#[derive(Debug, Copy, Clone, PartialEq, Eq)]
pub struct DsRefType {
    bits: u32,
}

impl View for DsRefType {
    type V = u32;

    closed spec fn view(&self) -> u32 {
        self.bits
    }
}

/// Whether every bit of `flag` is set in `bits`.
pub open spec fn has_flag(bits: u32, flag: u32) -> bool {
    bits & flag == flag
}

/// Whether `bits` holds no bit outside the recognized flags.
pub open spec fn known_flags(bits: u32) -> bool {
    bits & !DsRefType::ALL == 0
}

impl DsRefType {
    /// Specifies a collection.
    pub const COLLECTION: u32 = 0x0000_0001;

    /// Specifies a multiple DSRef object.
    pub const MULTIPLE: u32 = 0x0000_0002;

    /// Specifies that the DSRef object supports mixed mode.
    pub const MIXED: u32 = 0x0000_0004;

    /// Specifies a data source root.
    pub const DATASOURCEROOT: u32 = 0x0000_0010;

    /// Specifies a data field.
    pub const FIELD: u32 = 0x0000_0100;

    /// Specifies a table.
    pub const TABLE: u32 = 0x0000_0200;

    /// Specifies a query.
    pub const QUERY: u32 = 0x0000_0400;

    /// Specifies a database object.
    pub const DATABASE: u32 = 0x0000_0800;

    /// Specifies a trigger.
    pub const TRIGGER: u32 = 0x0000_1000;

    /// Specifies a stored procedure.
    pub const STOREDPROCEDURE: u32 = 0x0000_2000;

    /// Specifies an extended type.
    pub const EXTENDED: u32 = 0x0000_4000;

    /// Specifies a schema diagram.
    pub const SCHEMADIAGRAM: u32 = 0x0000_8000;

    /// Specifies that the node has a first child.
    pub const HASFIRSTCHILD: u32 = 0x0001_0000;

    /// Specifies that the node has a sibling that follows it.
    pub const HASNEXTSIBLING: u32 = 0x0002_0000;

    /// Specifies that the node has a name.
    pub const HASNAME: u32 = 0x0004_0000;

    /// Specifies that the node has a moniker.
    pub const HASMONIKER: u32 = 0x0008_0000;

    /// Specifies a view.
    pub const VIEW: u32 = 0x0010_0000;

    /// Specifies that the node has an owner.
    pub const HASOWNER: u32 = 0x0020_0000;

    /// Specifies that the node has properties.
    pub const HASPROP: u32 = 0x0040_0000;

    /// Specifies a synonym.
    pub const SYNONYM: u32 = 0x0080_0000;

    /// Specifies a database function.
    pub const FUNCTION: u32 = 0x0100_0000;

    /// Specifies a package.
    pub const PACKAGE: u32 = 0x0200_0000;

    /// Specifies a package body.
    pub const PACKAGEBODY: u32 = 0x0400_0000;

    /// Specifies a database relationship object.
    pub const RELATIONSHIP: u32 = 0x0800_0000;

    /// Specifies a database index.
    pub const INDEX: u32 = 0x1000_0000;

    /// Specifies a user-defined type.
    pub const USERDEFINEDTYPE: u32 = 0x2000_0000;

    /// Specifies a database view trigger.
    pub const VIEWTRIGGER: u32 = 0x4000_0000;

    /// Specifies a database view index.
    pub const VIEWINDEX: u32 = 0x8000_0000;

    /// Specifies a generic node.
    pub const NODE: u32 = 0xFF90_FF00;

    /// Specifies a null value.
    pub const NULL: u32 = 0;

    /// Every recognized bit.
    pub const ALL: u32 = 0xFFFF_FF17;

    #[verifier::type_invariant]
    spec fn recognized(self) -> bool {
        known_flags(self.bits)
    }

    /// Makes a flag word of `bits`, unless a bit outside the recognized flags is set.
    pub fn from_bits(bits: u32) -> (res: Option<DsRefType>)
        ensures
            res is Some <==> known_flags(bits),
            res matches Some(flags) ==> flags@ == bits,
    {
        if bits & !Self::ALL == 0 {
            Some(DsRefType { bits })
        } else {
            None
        }
    }

    /// The word itself.
    pub fn bits(&self) -> (bits: u32)
        ensures
            bits == self@,
            known_flags(bits),
    {
        proof {
            use_type_invariant(self);
        }
        self.bits
    }

    /// Whether every bit of `flag` is set.
    pub fn contains(&self, flag: u32) -> (res: bool)
        ensures
            res == has_flag(self@, flag),
    {
        self.bits & flag == flag
    }
}

/// A node of the tree.
#[derive(Debug)]
pub struct DsRefNode {
    pub flags: DsRefType,
    pub extended_type: Option<Guid>,
    pub name: Option<String>,
    pub owner: Option<String>,
    pub children: Vec<DsRefNode>,
    pub properties: Option<BTreeMap<Guid, Variant>>,
}

/// The model of a `DsRefNode`.
pub struct DsRefNodeView {
    pub flags: u32,
    pub extended_type: Option<Guid>,
    pub name: Option<Seq<char>>,
    pub owner: Option<Seq<char>>,
    pub children: Seq<DsRefNodeView>,
    pub properties: Option<Map<Guid, VariantView>>,
}

/// The model of an optional string.
pub open spec fn text_view(text: Option<String>) -> Option<Seq<char>> {
    match text {
        Some(t) => Some(t@),
        None => None,
    }
}

/// The model of a property map.
pub open spec fn map_view(map: BTreeMap<Guid, Variant>) -> Map<Guid, VariantView> {
    map@.map_values(|value: Variant| value@)
}

/// The model of an optional property map.
pub open spec fn properties_view(map: Option<BTreeMap<Guid, Variant>>) -> Option<
    Map<Guid, VariantView>,
> {
    match map {
        Some(m) => Some(map_view(m)),
        None => None,
    }
}

/// The models of a run of nodes.
pub open spec fn nodes_view(nodes: Seq<DsRefNode>) -> Seq<DsRefNodeView> {
    Seq::new(nodes.len(), |i: int| node_view(nodes[i]))
}

/// The model of a node and of the nodes below it.
pub open spec fn node_view(node: DsRefNode) -> DsRefNodeView
    decreases node,
{
    DsRefNodeView {
        flags: node.flags@,
        extended_type: node.extended_type,
        name: text_view(node.name),
        owner: text_view(node.owner),
        children: Seq::new(
            node.children@.len(),
            |i: int|
                if 0 <= i < node.children@.len() {
                    node_view(node.children@[i])
                } else {
                    arbitrary()
                },
        ),
        properties: properties_view(node.properties),
    }
}

impl View for DsRefNode {
    type V = DsRefNodeView;

    open spec fn view(&self) -> DsRefNodeView {
        node_view(*self)
    }
}

/// What the decoder of an optional GUID returns on `s`.
pub open spec fn spec_optional_guid(s: Seq<u8>, present: bool) -> Result<
    (Seq<u8>, Option<Guid>),
    Error,
> {
    if present {
        match spec_guid(s) {
            Ok((rest, guid)) => Ok((rest, Some(guid))),
            Err(e) => Err(e),
        }
    } else {
        Ok((s, None))
    }
}

/// What the decoder of an optional string returns on `s`.
pub open spec fn spec_optional_text(s: Seq<u8>, present: bool) -> Result<
    (Seq<u8>, Option<Seq<char>>),
    Error,
> {
    if present {
        match spec_u32_bytes_wstring_nt(s) {
            Ok((rest, text)) => Ok((rest, Some(text))),
            Err(e) => Err(e),
        }
    } else {
        Ok((s, None))
    }
}

/// What is read of `count` more properties from `s`, added in file order to `known`.
pub open spec fn spec_property_entries(
    s: Seq<u8>,
    count: nat,
    known: Map<Guid, VariantView>,
) -> Result<(Seq<u8>, Map<Guid, VariantView>), Error>
    decreases count,
{
    if count == 0 {
        Ok((s, known))
    } else {
        match spec_guid(s) {
            Ok((after_key, key)) => match spec_variant(after_key) {
                Ok((rest, value)) => spec_property_entries(
                    rest,
                    (count - 1) as nat,
                    known.insert(key, value),
                ),
                Err(e) => Err(e),
            },
            Err(e) => Err(e),
        }
    }
}

/// What `parse_dsref_properties` returns on `s`.
pub open spec fn spec_dsref_properties(s: Seq<u8>) -> Result<
    (Seq<u8>, Map<Guid, VariantView>),
    Error,
> {
    match spec_le_u32(s) {
        Ok((rest, count)) => spec_property_entries(rest, count as nat, Map::empty()),
        Err(e) => Err(e),
    }
}

/// What the decoder of an optional property map returns on `s`.
pub open spec fn spec_optional_properties(s: Seq<u8>, present: bool) -> Result<
    (Seq<u8>, Option<Map<Guid, VariantView>>),
    Error,
> {
    if present {
        match spec_dsref_properties(s) {
            Ok((rest, map)) => Ok((rest, Some(map))),
            Err(e) => Err(e),
        }
    } else {
        Ok((s, None))
    }
}

/// The parts of a node that stand before its children.
pub struct NodeHead {
    pub flags: u32,
    pub extended_type: Option<Guid>,
    pub name: Option<Seq<char>>,
    pub owner: Option<Seq<char>>,
}

/// What is read of a node up to its children: the flag word, then the
/// extended type, the name and the owner, each if its flag is set.
pub open spec fn spec_node_head(s: Seq<u8>) -> Result<(Seq<u8>, NodeHead), Error> {
    match spec_le_u32(s) {
        Ok((r0, flags)) => if !known_flags(flags) {
            Err(Error::ParseError(ErrorKind::Flags, s.len() as usize))
        } else {
            match spec_optional_guid(r0, has_flag(flags, DsRefType::EXTENDED)) {
                Ok((r1, extended_type)) => match spec_optional_text(
                    r1,
                    has_flag(flags, DsRefType::HASNAME),
                ) {
                    Ok((r2, name)) => match spec_optional_text(
                        r2,
                        has_flag(flags, DsRefType::HASOWNER),
                    ) {
                        Ok((r3, owner)) => Ok(
                            (r3, (NodeHead { flags, extended_type, name, owner })),
                        ),
                        Err(e) => Err(e),
                    },
                    Err(e) => Err(e),
                },
                Err(e) => Err(e),
            }
        },
        Err(e) => Err(e),
    }
}

/// What `parse_dsref_node` returns on `s`.
///
/// The children follow the head: a first one if the node's `HASFIRSTCHILD` is
/// set, and one more after each child whose `HASNEXTSIBLING` is set. The
/// properties come last, if `HASPROP` is set.
///
/// The test on the lengths makes the definition well-founded. It never
/// fails: a head takes at least four bytes (`lemma_node_head_consumes`).
pub open spec fn spec_dsref_node(s: Seq<u8>) -> Result<(Seq<u8>, DsRefNodeView), Error>
    decreases s.len(), 0nat,
{
    match spec_node_head(s) {
        Ok((after_head, head)) => if after_head.len() < s.len() {
            match spec_dsref_siblings(after_head, has_flag(head.flags, DsRefType::HASFIRSTCHILD)) {
                Ok((after_children, children)) => match spec_optional_properties(
                    after_children,
                    has_flag(head.flags, DsRefType::HASPROP),
                ) {
                    Ok((rest, properties)) => Ok(
                        (
                            rest,
                            (DsRefNodeView {
                                flags: head.flags,
                                extended_type: head.extended_type,
                                name: head.name,
                                owner: head.owner,
                                children,
                                properties,
                            }),
                        ),
                    ),
                    Err(e) => Err(e),
                },
                Err(e) => Err(e),
            }
        } else {
            Err(Error::Incomplete)
        },
        Err(e) => Err(e),
    }
}

/// The chain of siblings that starts at `s`, if `more` says that there is one.
///
/// The test on the lengths makes the definition well-founded. It never
/// fails: a node takes at least four bytes (`lemma_node_consumes`).
pub open spec fn spec_dsref_siblings(s: Seq<u8>, more: bool) -> Result<
    (Seq<u8>, Seq<DsRefNodeView>),
    Error,
>
    decreases s.len(), 1nat,
{
    if !more {
        Ok((s, Seq::empty()))
    } else {
        match spec_dsref_node(s) {
            Ok((after_node, node)) => if after_node.len() < s.len() {
                match spec_dsref_siblings(
                    after_node,
                    has_flag(node.flags, DsRefType::HASNEXTSIBLING),
                ) {
                    Ok((rest, siblings)) => Ok((rest, seq![node] + siblings)),
                    Err(e) => Err(e),
                }
            } else {
                Err(Error::Incomplete)
            },
            Err(e) => Err(e),
        }
    }
}

/// Whether a tree is built as its flag words say.
///
/// Each optional part of a node is there exactly if its flag is set. The node
/// has children exactly if `HASFIRSTCHILD` is set, and a child has
/// `HASNEXTSIBLING` set exactly if it is not the last one.
pub open spec fn node_wf(node: DsRefNodeView) -> bool
    decreases node,
{
    &&& known_flags(node.flags)
    &&& node.extended_type.is_some() == has_flag(node.flags, DsRefType::EXTENDED)
    &&& node.name.is_some() == has_flag(node.flags, DsRefType::HASNAME)
    &&& node.owner.is_some() == has_flag(node.flags, DsRefType::HASOWNER)
    &&& node.properties.is_some() == has_flag(node.flags, DsRefType::HASPROP)
    &&& (node.children.len() > 0) == has_flag(node.flags, DsRefType::HASFIRSTCHILD)
    &&& sibling_chain(node.children)
    &&& forall|i: int| 0 <= i < node.children.len() ==> node_wf(#[trigger] node.children[i])
}

/// Whether every node of the run but the last has `HASNEXTSIBLING` set.
pub open spec fn sibling_chain(nodes: Seq<DsRefNodeView>) -> bool {
    forall|i: int|
        0 <= i < nodes.len() ==> has_flag(#[trigger] nodes[i].flags, DsRefType::HASNEXTSIBLING)
            == (i + 1 < nodes.len())
}

/// The head of a node takes at least the four bytes of its flag word.
pub proof fn lemma_node_head_consumes(s: Seq<u8>)
    ensures
        spec_node_head(s) matches Ok((rest, _)) ==> rest.len() + 4 <= s.len(),
{
}

/// A node is decoded from fewer bytes than are left after it, and so is a
/// chain of siblings that is not empty.
pub proof fn lemma_node_consumes(s: Seq<u8>)
    ensures
        spec_dsref_node(s) matches Ok((rest, _)) ==> rest.len() + 4 <= s.len(),
    decreases s.len(), 0nat,
{
    lemma_node_head_consumes(s);
    if let Ok((after_head, head)) = spec_node_head(s) {
        lemma_siblings_consume(after_head, has_flag(head.flags, DsRefType::HASFIRSTCHILD));
        if let Ok((after_children, _)) = spec_dsref_siblings(
            after_head,
            has_flag(head.flags, DsRefType::HASFIRSTCHILD),
        ) {
            lemma_properties_consume(after_children);
        }
    }
}

/// A chain of siblings leaves no more bytes than it was read from.
pub proof fn lemma_siblings_consume(s: Seq<u8>, more: bool)
    ensures
        spec_dsref_siblings(s, more) matches Ok((rest, _)) ==> rest.len() <= s.len(),
    decreases s.len(), 1nat,
{
    if more {
        lemma_node_consumes(s);
        if let Ok((after_node, node)) = spec_dsref_node(s) {
            lemma_siblings_consume(after_node, has_flag(node.flags, DsRefType::HASNEXTSIBLING));
        }
    }
}

/// A run of properties leaves no more bytes than it was read from.
pub proof fn lemma_property_entries_consume(s: Seq<u8>, count: nat, known: Map<Guid, VariantView>)
    ensures
        spec_property_entries(s, count, known) matches Ok((rest, _)) ==> rest.len() <= s.len(),
    decreases count,
{
    if count > 0 {
        if let Ok((after_key, key)) = spec_guid(s) {
            if let Ok((rest, value)) = spec_variant(after_key) {
                lemma_property_entries_consume(rest, (count - 1) as nat, known.insert(key, value));
            }
        }
    }
}

/// A property map leaves no more bytes than it was read from.
pub proof fn lemma_properties_consume(s: Seq<u8>)
    ensures
        spec_dsref_properties(s) matches Ok((rest, _)) ==> rest.len() <= s.len(),
{
    if let Ok((rest, count)) = spec_le_u32(s) {
        lemma_property_entries_consume(rest, count as nat, Map::empty());
    }
}

/// Every decoded tree is built as its flag words say: each optional part is
/// there exactly if its flag is set, and a node has as many children as the
/// chain of `HASFIRSTCHILD` and `HASNEXTSIBLING` flags has links.
pub proof fn lemma_decoded_node_wf(s: Seq<u8>)
    ensures
        spec_dsref_node(s) matches Ok((_, node)) ==> node_wf(node),
    decreases s.len(), 0nat,
{
    if let Ok((after_head, head)) = spec_node_head(s) {
        if after_head.len() < s.len() {
            lemma_decoded_siblings_wf(
                after_head,
                has_flag(head.flags, DsRefType::HASFIRSTCHILD),
            );
        }
    }
}

/// A decoded chain of siblings is empty exactly if none was announced, its
/// flags form a chain, and each of its nodes is built as its flag words say.
pub proof fn lemma_decoded_siblings_wf(s: Seq<u8>, more: bool)
    ensures
        spec_dsref_siblings(s, more) matches Ok((_, nodes)) ==> {
            &&& (nodes.len() > 0) == more
            &&& sibling_chain(nodes)
            &&& forall|i: int| 0 <= i < nodes.len() ==> node_wf(#[trigger] nodes[i])
        },
    decreases s.len(), 1nat,
{
    if more {
        lemma_decoded_node_wf(s);
        if let Ok((after_node, node)) = spec_dsref_node(s) {
            if after_node.len() < s.len() {
                lemma_decoded_siblings_wf(
                    after_node,
                    has_flag(node.flags, DsRefType::HASNEXTSIBLING),
                );
            }
        }
    }
}

/// A result of the siblings' decoder with `nodes` put in front of its run.
pub open spec fn after_nodes(
    nodes: Seq<DsRefNodeView>,
    outcome: Result<(Seq<u8>, Seq<DsRefNodeView>), Error>,
) -> Result<(Seq<u8>, Seq<DsRefNodeView>), Error> {
    match outcome {
        Ok((rest, siblings)) => Ok((rest, nodes + siblings)),
        Err(e) => Err(e),
    }
}

/// Reads a property map: a 32-bit count, then that many pairs of a GUID and a
/// value. Of two pairs with the same GUID the later one stays.
pub fn parse_dsref_properties(input: &[u8]) -> (res: Result<
    (&[u8], BTreeMap<Guid, Variant>),
    Error,
>)
    ensures
        match res {
            Ok((rest, map)) => spec_dsref_properties(input@) == Ok::<_, Error>(
                (rest@, map_view(map)),
            ),
            Err(e) => spec_dsref_properties(input@) == Err::<
                (Seq<u8>, Map<Guid, VariantView>),
                _,
            >(e),
        },
{
    let (entries, count) = le_u32(input)?;
    let mut map: BTreeMap<Guid, Variant> = BTreeMap::new();
    let mut rest: &[u8] = entries;
    let mut done: u32 = 0;
    assert(map_view(map) =~= Map::empty());
    while done < count
        invariant
            done <= count,
            spec_dsref_properties(input@) == spec_property_entries(
                rest@,
                (count - done) as nat,
                map_view(map),
            ),
        decreases count - done,
    {
        let (after_key, key) = parse_guid(rest)?;
        let (after_value, value) = parse_variant(after_key)?;
        let ghost known = map_view(map);
        let ghost model = value@;
        map.insert(key, value);
        assert(map_view(map) =~= known.insert(key, model));
        rest = after_value;
        done = done + 1;
    }
    Ok((rest, map))
}

/// Reads a node and the nodes below it.
///
/// The flag word comes first and says which parts follow: the extended type,
/// the name, the owner, the children and the properties, in this order. The
/// children are a chain: the node's `HASFIRSTCHILD` announces the first, and
/// each child's `HASNEXTSIBLING` announces one more.
pub fn parse_dsref_node(input: &[u8]) -> (res: Result<(&[u8], DsRefNode), Error>)
    ensures
        viewed(res) == spec_dsref_node(input@),
        res matches Ok((_, node)) ==> node_wf(node@),
    decreases input@.len(),
{
    let (rest, bits) = le_u32(input)?;
    let flags: DsRefType = match DsRefType::from_bits(bits) {
        Some(flags) => flags,
        None => { return Err(Error::ParseError(ErrorKind::Flags, input.len())); },
    };
    let (rest, extended_type) = if flags.contains(DsRefType::EXTENDED) {
        let (rest, guid) = parse_guid(rest)?;
        (rest, Some(guid))
    } else {
        (rest, None)
    };
    let (rest, name) = if flags.contains(DsRefType::HASNAME) {
        let (rest, text) = parse_u32_bytes_wstring_nt(rest)?;
        (rest, Some(text))
    } else {
        (rest, None)
    };
    let (after_head, owner) = if flags.contains(DsRefType::HASOWNER) {
        let (rest, text) = parse_u32_bytes_wstring_nt(rest)?;
        (rest, Some(text))
    } else {
        (rest, None)
    };
    let ghost head = NodeHead {
        flags: bits,
        extended_type,
        name: text_view(name),
        owner: text_view(owner),
    };
    assert(spec_node_head(input@) == Ok::<_, Error>((after_head@, head)));
    let first: bool = flags.contains(DsRefType::HASFIRSTCHILD);
    let mut children: Vec<DsRefNode> = Vec::new();
    let mut more: bool = first;
    let mut rest: &[u8] = after_head;
    assert(nodes_view(children@) + Seq::<DsRefNodeView>::empty() =~= Seq::<DsRefNodeView>::empty());
    while more
        invariant
            rest@.len() <= after_head@.len() < input@.len(),
            spec_node_head(input@) == Ok::<_, Error>((after_head@, head)),
            first == has_flag(head.flags, DsRefType::HASFIRSTCHILD),
            spec_dsref_siblings(after_head@, first) == after_nodes(
                nodes_view(children@),
                spec_dsref_siblings(rest@, more),
            ),
        decreases rest@.len(),
    {
        proof {
            lemma_node_consumes(rest@);
        }
        let (after_node, child) = parse_dsref_node(rest)?;
        proof {
            let tail = spec_dsref_siblings(
                after_node@,
                has_flag(child@.flags, DsRefType::HASNEXTSIBLING),
            );
            if let Ok((_, siblings)) = tail {
                assert(nodes_view(children@.push(child)) + siblings =~= nodes_view(children@) + (
                seq![child@] + siblings));
            }
        }
        more = child.flags.contains(DsRefType::HASNEXTSIBLING);
        children.push(child);
        rest = after_node;
    }
    assert(nodes_view(children@) + Seq::<DsRefNodeView>::empty() =~= nodes_view(children@));
    let (rest, properties) = if flags.contains(DsRefType::HASPROP) {
        let (rest, map) = parse_dsref_properties(rest)?;
        (rest, Some(map))
    } else {
        (rest, None)
    };
    let node = DsRefNode { flags, extended_type, name, owner, children, properties };
    proof {
        assert(node@.children =~= nodes_view(node.children@));
        lemma_decoded_node_wf(input@);
    }
    Ok((rest, node))
}

/// The stream that holds the data source reference of a diagram.
#[derive(Debug)]
pub struct DSRefSchemaContents {
    /// The class of the persisted object.
    pub clsid: Guid,
    /// The number of bytes that follow the class identifier.
    pub len: usize,
    /// A word after the version marker, not yet understood.
    pub a: u16,
    /// A time in 100 ns ticks since 1601-01-01.
    pub timestamp: u64,
    /// A word before the root node, not yet understood.
    pub b: u32,
    /// The root of the tree.
    pub root_node: DsRefNode,
}

/// The model of a `DSRefSchemaContents`.
pub struct DSRefSchemaContentsView {
    pub clsid: Guid,
    pub len: usize,
    pub a: u16,
    pub timestamp: u64,
    pub b: u32,
    pub root_node: DsRefNodeView,
}

impl View for DSRefSchemaContents {
    type V = DSRefSchemaContentsView;

    open spec fn view(&self) -> DSRefSchemaContentsView {
        DSRefSchemaContentsView {
            clsid: self.clsid,
            len: self.len,
            a: self.a,
            timestamp: self.timestamp,
            b: self.b,
            root_node: self.root_node@,
        }
    }
}

impl DSRefSchemaContents {
    /// The timestamp as seconds since 1970-01-01.
    pub fn get_time(&self) -> (seconds: u64)
        requires
            self.timestamp / WINDOWS_TICK >= SEC_TO_UNIX_EPOCH,
        ensures
            seconds == self.timestamp / WINDOWS_TICK - SEC_TO_UNIX_EPOCH,
    {
        windows_tick_to_unix_seconds(self.timestamp)
    }
}

/// What `parse_dsref_schema_contents` returns on `s`.
pub open spec fn spec_dsref_schema_contents(s: Seq<u8>) -> Result<
    (Seq<u8>, DSRefSchemaContentsView),
    Error,
> {
    match spec_guid(s) {
        Ok((r0, clsid)) => match spec_le_u16(r0) {
            Ok((r1, marker)) => if marker != 0 {
                Err(Error::ParseError(ErrorKind::Version, r0.len() as usize))
            } else {
                match spec_le_u16(r1) {
                    Ok((r2, a)) => match spec_le_u64(r2) {
                        Ok((r3, timestamp)) => match spec_le_u32(r3) {
                            Ok((r4, b)) => match spec_dsref_node(r4) {
                                Ok((rest, root_node)) => Ok(
                                    (
                                        rest,
                                        (DSRefSchemaContentsView {
                                            clsid,
                                            len: r0.len() as usize,
                                            a,
                                            timestamp,
                                            b,
                                            root_node,
                                        }),
                                    ),
                                ),
                                Err(e) => Err(e),
                            },
                            Err(e) => Err(e),
                        },
                        Err(e) => Err(e),
                    },
                    Err(e) => Err(e),
                }
            },
            Err(e) => Err(e),
        },
        Err(e) => Err(e),
    }
}

/// Reads the stream of a data source reference: the class identifier, a
/// version marker of zero, a word, the timestamp, a word, then the root node.
pub fn parse_dsref_schema_contents(input: &[u8]) -> (res: Result<
    (&[u8], DSRefSchemaContents),
    Error,
>)
    ensures
        viewed(res) == spec_dsref_schema_contents(input@),
        res matches Ok((_, contents)) ==> node_wf(contents.root_node@),
{
    let (after_clsid, clsid) = parse_guid(input)?;
    let len: usize = after_clsid.len();
    let (rest, marker) = le_u16(after_clsid)?;
    if marker != 0 {
        return Err(Error::ParseError(ErrorKind::Version, after_clsid.len()));
    }
    let (rest, a) = le_u16(rest)?;
    let (rest, timestamp) = le_u64(rest)?;
    let (rest, b) = le_u32(rest)?;
    let (rest, root_node) = parse_dsref_node(rest)?;
    Ok((rest, DSRefSchemaContents { clsid, len, a, timestamp, b, root_node }))
}

} // verus!
