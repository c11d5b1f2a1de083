use vstd::prelude::*;

verus! {

/// One named attribute of a device node. `value` is `None` when the
/// attribute exists but its value is not readable as UTF-8 text.
#[derive(Clone, Debug)]
pub struct Attribute {
    pub name: String,
    pub value: Option<String>,
}

/// The attributes that one node of the device tree carries itself.
#[derive(Clone, Debug)]
pub struct DeviceNode {
    pub attributes: Vec<Attribute>,
}

/// A device as read from the device subsystem: its locator, and the chain of
/// nodes from the device itself (`ancestry[0]`) up to the root of the tree
/// (`ancestry[i + 1]` is the parent of `ancestry[i]`).
#[derive(Clone, Debug)]
pub struct Device {
    pub locator: String,
    pub ancestry: Vec<DeviceNode>,
}

/// The text of an attribute value that is readable.
pub open spec fn text_of(v: Option<String>) -> Option<Seq<char>> {
    match v {
        Some(s) => Some(s@),
        None => None,
    }
}

/// What the first attribute called `name` at or after position `i` holds:
/// `None` when there is none, `Some(None)` when its value is unreadable.
pub open spec fn lookup_from(attrs: Seq<Attribute>, name: Seq<char>, i: int) -> Option<
    Option<Seq<char>>,
>
    decreases attrs.len() - i,
{
    if i < 0 || i >= attrs.len() {
        None
    } else if attrs[i].name@ == name {
        Some(text_of(attrs[i].value))
    } else {
        lookup_from(attrs, name, i + 1)
    }
}

/// What the node's own attribute called `name` holds, if it has one.
pub open spec fn node_lookup(node: DeviceNode, name: Seq<char>) -> Option<Option<Seq<char>>> {
    lookup_from(node.attributes@, name, 0)
}

/// Resolution of `name` from level `level` of the chain upward: the nearest
/// node that carries the attribute decides; past the root nothing is found.
pub open spec fn resolve_from(nodes: Seq<DeviceNode>, name: Seq<char>, level: int) -> Option<
    Seq<char>,
>
    decreases nodes.len() - level,
{
    if level < 0 || level >= nodes.len() {
        None
    } else {
        match node_lookup(nodes[level], name) {
            Some(v) => v,
            None => resolve_from(nodes, name, level + 1),
        }
    }
}

/// The text value of attribute `name` as inherited along the device's chain.
pub open spec fn resolve(nodes: Seq<DeviceNode>, name: Seq<char>) -> Option<Seq<char>> {
    resolve_from(nodes, name, 0)
}

proof fn lemma_resolve_skips(nodes: Seq<DeviceNode>, name: Seq<char>, level: int, k: int)
    requires
        0 <= level <= k <= nodes.len(),
        forall|j: int| level <= j < k ==> (#[trigger] node_lookup(nodes[j], name)) is None,
    ensures
        resolve_from(nodes, name, level) == resolve_from(nodes, name, k),
    decreases k - level,
{
    if level < k {
        lemma_resolve_skips(nodes, name, level + 1, k);
    }
}

/// An attribute that the device lacks is inherited from the nearest ancestor
/// that carries it, however far up the chain that is.
pub proof fn lemma_inherited_from_ancestor(nodes: Seq<DeviceNode>, name: Seq<char>, k: int)
    requires
        0 <= k < nodes.len(),
        forall|j: int| 0 <= j < k ==> (#[trigger] node_lookup(nodes[j], name)) is None,
        node_lookup(nodes[k], name) is Some,
    ensures
        resolve(nodes, name) == node_lookup(nodes[k], name).unwrap(),
{
    lemma_resolve_skips(nodes, name, 0, k);
}

/// An attribute that no node of the chain carries resolves to nothing.
pub proof fn lemma_absent_from_chain(nodes: Seq<DeviceNode>, name: Seq<char>)
    requires
        forall|j: int| 0 <= j < nodes.len() ==> (#[trigger] node_lookup(nodes[j], name)) is None,
    ensures
        resolve(nodes, name) is None,
{
    lemma_resolve_skips(nodes, name, 0, nodes.len() as int);
}

/// Whether the device node itself (not an ancestor) carries attribute `name`.
pub open spec fn carries(nodes: Seq<DeviceNode>, name: Seq<char>) -> bool {
    nodes.len() > 0 && node_lookup(nodes[0], name) is Some
}

/// The value of one hexadecimal digit, either case.
pub open spec fn hex_digit(c: char) -> Option<nat> {
    if '0' <= c && c <= '9' {
        Some((c as u32 - '0' as u32) as nat)
    } else if 'a' <= c && c <= 'f' {
        Some((c as u32 - 'a' as u32 + 10) as nat)
    } else if 'A' <= c && c <= 'F' {
        Some((c as u32 - 'A' as u32 + 10) as nat)
    } else {
        None
    }
}

/// The number that a string of hexadecimal digits denotes, most significant
/// first; `None` if some character is not a digit.
pub open spec fn hex_digits(s: Seq<char>) -> Option<nat>
    decreases s.len(),
{
    if s.len() == 0 {
        Some(0)
    } else {
        match (hex_digits(s.drop_last()), hex_digit(s.last())) {
            (Some(high), Some(low)) => Some(high * 16 + low),
            _ => None,
        }
    }
}

/// A 16-bit number written in hexadecimal: an optional `+`, then at least one
/// digit, with a value below 2^16.
pub open spec fn hex_u16(s: Seq<char>) -> Option<u16> {
    let digits = if s.len() > 0 && s[0] == '+' {
        s.subrange(1, s.len() as int)
    } else {
        s
    };
    if digits.len() == 0 {
        None
    } else {
        match hex_digits(digits) {
            Some(v) => if v < 0x10000 {
                Some(v as u16)
            } else {
                None
            },
            None => None,
        }
    }
}

/// A hexadecimal attribute as inherited along the chain; an unreadable or
/// malformed value counts as absent.
pub open spec fn resolve_hex(nodes: Seq<DeviceNode>, name: Seq<char>) -> Option<u16> {
    match resolve(nodes, name) {
        Some(text) => hex_u16(text),
        None => None,
    }
}

/// Relies on `u16::from_str_radix` with radix 16: an optional `+`, then one or
/// more ASCII hex digits of either case, and an error on overflow.
#[verifier::external_body]
fn parse_hex_u16(s: &str) -> (r: Option<u16>)
    ensures
        r == hex_u16(s@),
{
    u16::from_str_radix(s, 16).ok()
}

/// The node's own attribute called `name`: `None` if it has none,
/// `Some(None)` if it has one whose value is unreadable.
fn node_attribute(node: &DeviceNode, name: &String) -> (r: Option<Option<String>>)
    ensures
        match r {
            Some(v) => node_lookup(*node, name@) == Some(text_of(v)),
            None => node_lookup(*node, name@) is None,
        },
{
    let mut i: usize = 0;
    while i < node.attributes.len()
        invariant
            i <= node.attributes@.len(),
            node_lookup(*node, name@) == lookup_from(node.attributes@, name@, i as int),
        decreases node.attributes@.len() - i,
    {
        if node.attributes[i].name == *name {
            return Some(node.attributes[i].value.clone());
        }
        i = i + 1;
    }
    None
}

impl Device {
    /// Looks up attribute `name` on the device, or failing that on the nearest
    /// ancestor that carries it.
    pub fn attribute(&self, name: &String) -> (r: Option<String>)
        ensures
            text_of(r) == resolve(self.ancestry@, name@),
    {
        let mut level: usize = 0;
        while level < self.ancestry.len()
            invariant
                level <= self.ancestry@.len(),
                resolve(self.ancestry@, name@) == resolve_from(self.ancestry@, name@, level as int),
            decreases self.ancestry@.len() - level,
        {
            match node_attribute(&self.ancestry[level], name) {
                Some(v) => {
                    return v;
                },
                None => {},
            }
            level = level + 1;
        }
        None
    }

    /// Looks up attribute `name` as `attribute` does and reads it as a 16-bit
    /// hexadecimal number.
    pub fn attribute_hex(&self, name: &String) -> (r: Option<u16>)
        ensures
            r == resolve_hex(self.ancestry@, name@),
    {
        match self.attribute(name) {
            Some(text) => parse_hex_u16(text.as_str()),
            None => None,
        }
    }

    /// Whether the device node itself carries attribute `name`.
    pub fn carries(&self, name: &String) -> (r: bool)
        ensures
            r == carries(self.ancestry@, name@),
    {
        if self.ancestry.len() == 0 {
            false
        } else {
            node_attribute(&self.ancestry[0], name).is_some()
        }
    }
}

} // verus!
