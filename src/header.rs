use vstd::prelude::*;
use vstd::slice::slice_to_vec;
use vstd::string::StringSliceAdditionalSpecFns;

use crate::own::OwnOrRef;

verus! {

/// A builtin header field name. The order of the variants is a fixed wire
/// contract: the ordinal of each variant is the engine's index for it.
#[derive(Debug, PartialEq, Eq, Copy, Clone, Structural)]
#[allow(non_camel_case_types)]
pub enum BuiltinIndicesEnum {
    CONNECTION,
    KEEP_ALIVE,
    TE,
    TRAILER,
    UPGRADE,
    CONTENT_LENGTH,
    TRANSFER_ENCODING,
    SEC_WEBSOCKET_KEY,
    SEC_WEBSOCKET_VERSION,
    SEC_WEBSOCKET_ACCEPT,
    SEC_WEBSOCKET_EXTENSIONS,
    HOST,
    DATE,
    LOCATION,
    CONTENT_TYPE,
    RANGE,
    CONTENT_RANGE,
}

/// Header fields are addressed by builtin identifier only.
pub type HeaderId = BuiltinIndicesEnum;

/// Number of builtin header identifiers.
pub const HEADER_COUNT: usize = 17;

/// The wire index of each header identifier, by position in declaration order.
pub open spec fn header_ordinal(id: HeaderId) -> nat {
    match id {
        BuiltinIndicesEnum::CONNECTION => 0,
        BuiltinIndicesEnum::KEEP_ALIVE => 1,
        BuiltinIndicesEnum::TE => 2,
        BuiltinIndicesEnum::TRAILER => 3,
        BuiltinIndicesEnum::UPGRADE => 4,
        BuiltinIndicesEnum::CONTENT_LENGTH => 5,
        BuiltinIndicesEnum::TRANSFER_ENCODING => 6,
        BuiltinIndicesEnum::SEC_WEBSOCKET_KEY => 7,
        BuiltinIndicesEnum::SEC_WEBSOCKET_VERSION => 8,
        BuiltinIndicesEnum::SEC_WEBSOCKET_ACCEPT => 9,
        BuiltinIndicesEnum::SEC_WEBSOCKET_EXTENSIONS => 10,
        BuiltinIndicesEnum::HOST => 11,
        BuiltinIndicesEnum::DATE => 12,
        BuiltinIndicesEnum::LOCATION => 13,
        BuiltinIndicesEnum::CONTENT_TYPE => 14,
        BuiltinIndicesEnum::RANGE => 15,
        BuiltinIndicesEnum::CONTENT_RANGE => 16,
    }
}

impl BuiltinIndicesEnum {
    /// The wire index of this header identifier.
    pub fn ordinal(self) -> (r: usize)
        ensures
            r as nat == header_ordinal(self),
            r < HEADER_COUNT,
    {
        match self {
            BuiltinIndicesEnum::CONNECTION => 0,
            BuiltinIndicesEnum::KEEP_ALIVE => 1,
            BuiltinIndicesEnum::TE => 2,
            BuiltinIndicesEnum::TRAILER => 3,
            BuiltinIndicesEnum::UPGRADE => 4,
            BuiltinIndicesEnum::CONTENT_LENGTH => 5,
            BuiltinIndicesEnum::TRANSFER_ENCODING => 6,
            BuiltinIndicesEnum::SEC_WEBSOCKET_KEY => 7,
            BuiltinIndicesEnum::SEC_WEBSOCKET_VERSION => 8,
            BuiltinIndicesEnum::SEC_WEBSOCKET_ACCEPT => 9,
            BuiltinIndicesEnum::SEC_WEBSOCKET_EXTENSIONS => 10,
            BuiltinIndicesEnum::HOST => 11,
            BuiltinIndicesEnum::DATE => 12,
            BuiltinIndicesEnum::LOCATION => 13,
            BuiltinIndicesEnum::CONTENT_TYPE => 14,
            BuiltinIndicesEnum::RANGE => 15,
            BuiltinIndicesEnum::CONTENT_RANGE => 16,
        }
    }

    /// The header identifier carrying wire index `n`, if any.
    pub fn from_ordinal(n: usize) -> (r: Option<HeaderId>)
        ensures
            r.is_some() <==> n < HEADER_COUNT,
            r matches Some(id) ==> header_ordinal(id) == n as nat,
    {
        match n {
            0 => Some(BuiltinIndicesEnum::CONNECTION),
            1 => Some(BuiltinIndicesEnum::KEEP_ALIVE),
            2 => Some(BuiltinIndicesEnum::TE),
            3 => Some(BuiltinIndicesEnum::TRAILER),
            4 => Some(BuiltinIndicesEnum::UPGRADE),
            5 => Some(BuiltinIndicesEnum::CONTENT_LENGTH),
            6 => Some(BuiltinIndicesEnum::TRANSFER_ENCODING),
            7 => Some(BuiltinIndicesEnum::SEC_WEBSOCKET_KEY),
            8 => Some(BuiltinIndicesEnum::SEC_WEBSOCKET_VERSION),
            9 => Some(BuiltinIndicesEnum::SEC_WEBSOCKET_ACCEPT),
            10 => Some(BuiltinIndicesEnum::SEC_WEBSOCKET_EXTENSIONS),
            11 => Some(BuiltinIndicesEnum::HOST),
            12 => Some(BuiltinIndicesEnum::DATE),
            13 => Some(BuiltinIndicesEnum::LOCATION),
            14 => Some(BuiltinIndicesEnum::CONTENT_TYPE),
            15 => Some(BuiltinIndicesEnum::RANGE),
            16 => Some(BuiltinIndicesEnum::CONTENT_RANGE),
            _ => None,
        }
    }
}

/// Distinct header identifiers carry distinct wire indices.
pub proof fn lemma_header_ordinal_injective(a: HeaderId, b: HeaderId)
    ensures
        header_ordinal(a) == header_ordinal(b) ==> a == b,
        header_ordinal(a) < HEADER_COUNT,
{
}

/// The value held in one slot of the store.
pub open spec fn slot_view(slot: Option<Vec<u8>>) -> Option<Seq<u8>> {
    match slot {
        Some(v) => Some(v@),
        None => None,
    }
}

/// The storage of a header collection: one slot per builtin identifier,
/// holding the field's bytes when it is set.
pub struct HeaderTable {
    slots: Vec<Option<Vec<u8>>>,
}

impl HeaderTable {
    /// One slot per builtin identifier.
    #[verifier::type_invariant]
    closed spec fn wf(&self) -> bool {
        self.slots@.len() == HEADER_COUNT
    }

    /// The value in the slot at wire index `n`.
    pub closed spec fn slot(&self, n: int) -> Option<Seq<u8>> {
        slot_view(self.slots@[n])
    }

    /// The fields that are set, each with its bytes.
    pub closed spec fn view(&self) -> Map<HeaderId, Seq<u8>> {
        Map::new(
            |id: HeaderId| self.slot(header_ordinal(id) as int) is Some,
            |id: HeaderId| self.slot(header_ordinal(id) as int)->Some_0,
        )
    }

    /// An empty collection: no field is set.
    pub fn new() -> (r: HeaderTable)
        ensures
            r@ == Map::<HeaderId, Seq<u8>>::empty(),
    {
        let mut slots: Vec<Option<Vec<u8>>> = Vec::new();
        let mut i: usize = 0;
        while i < HEADER_COUNT
            invariant
                i <= HEADER_COUNT,
                slots@.len() == i,
                forall|k: int| 0 <= k < i ==> slots@[k] is None,
            decreases HEADER_COUNT - i,
        {
            slots.push(None);
            i = i + 1;
        }
        let r = HeaderTable { slots };
        assert(r@ =~= Map::<HeaderId, Seq<u8>>::empty());
        r
    }

    /// Overwrites field `id` with the bytes of `value`. The value is not
    /// validated; every other field keeps its value.
    pub fn set(&mut self, id: HeaderId, value: &str)
        ensures
            final(self)@ == old(self)@.insert(id, value.spec_bytes()),
    {
        proof {
            use_type_invariant(&*self);
        }
        let n = id.ordinal();
        let bytes = slice_to_vec(value.as_bytes());
        let mut table = HeaderTable::new();
        std::mem::swap(self, &mut table);
        proof {
            use_type_invariant(&table);
        }
        let HeaderTable { mut slots } = table;
        slots.set(n, Some(bytes));
        *self = HeaderTable { slots };
        assert forall|k: HeaderId| #![auto] header_ordinal(k) == header_ordinal(id) ==> k == id by {
            lemma_header_ordinal_injective(k, id);
        }
        assert(self@ =~= old(self)@.insert(id, value.spec_bytes()));
    }

    /// The bytes of field `id`, borrowed from this collection, or `None`
    /// when the field is not set.
    pub fn get(&self, id: HeaderId) -> (r: Option<&[u8]>)
        ensures
            r is Some <==> self@.contains_key(id),
            r matches Some(s) ==> s@ == self@[id],
    {
        proof {
            use_type_invariant(self);
        }
        let n = id.ordinal();
        match &self.slots[n] {
            Some(v) => Some(v.as_slice()),
            None => None,
        }
    }

    /// A new, independently owned collection holding the same fields.
    /// Writing to either one afterwards leaves the other as it was.
    #[must_use]
    pub fn duplicate(&self) -> (r: HeaderTable)
        ensures
            r@ == self@,
    {
        proof {
            use_type_invariant(self);
        }
        let mut slots: Vec<Option<Vec<u8>>> = Vec::new();
        let mut i: usize = 0;
        while i < self.slots.len()
            invariant
                self.slots@.len() == HEADER_COUNT,
                i <= HEADER_COUNT,
                slots@.len() == i,
                forall|k: int| 0 <= k < i ==> slot_view(#[trigger] slots@[k]) == self.slot(k),
            decreases HEADER_COUNT - i,
        {
            let copy = match &self.slots[i] {
                Some(v) => Some(slice_to_vec(v.as_slice())),
                None => None,
            };
            slots.push(copy);
            i = i + 1;
        }
        let r = HeaderTable { slots };
        assert(r@ =~= self@);
        r
    }
}

/// A header collection reached through an ownership cell: either owned here,
/// or borrowed from its owner for `'a`. It can be written to when it is owned
/// or borrowed mutably.
pub struct HttpHeaders<'a>(pub OwnOrRef<'a, HeaderTable>);

impl<'a> HttpHeaders<'a> {
    /// The fields that are set, each with its bytes.
    pub open spec fn view(&self) -> Map<HeaderId, Seq<u8>> {
        self.0@@
    }

    /// Whether the collection can be written to through this handle.
    pub open spec fn writable(&self) -> bool {
        self.0.writable()
    }

    /// A new, owned collection with no field set.
    pub fn new() -> (r: HttpHeaders<'a>)
        ensures
            r.0 is Owned,
            r@ == Map::<HeaderId, Seq<u8>>::empty(),
    {
        HttpHeaders(OwnOrRef::own(HeaderTable::new()))
    }

    /// Overwrites field `id` with the bytes of `value`, in place. The value
    /// is not validated; every other field keeps its value.
    pub fn set(&mut self, id: HeaderId, value: &str)
        requires
            old(self).writable(),
        ensures
            final(self).writable(),
            final(self)@ == old(self)@.insert(id, value.spec_bytes()),
    {
        self.0.as_mut().set(id, value);
    }

    /// A new, independently owned collection holding the same fields.
    /// Writing to either one afterwards leaves the other as it was.
    #[must_use]
    pub fn clone_shallow(&self) -> (r: HttpHeaders<'a>)
        ensures
            r.0 is Owned,
            r@ == self@,
    {
        HttpHeaders(OwnOrRef::own(self.0.as_ref().duplicate()))
    }

    /// The bytes of field `id`, borrowed from the collection, or `None` when
    /// the field is not set. The bytes stay valid while the collection is
    /// neither written to nor dropped.
    pub fn get(&self, id: HeaderId) -> (r: Option<&[u8]>)
        ensures
            r is Some <==> self@.contains_key(id),
            r matches Some(s) ==> s@ == self@[id],
    {
        self.0.as_ref().get(id)
    }

    /// Borrows a collection that someone else owns; it cannot be written to
    /// through the result.
    pub fn borrowed(table: &'a HeaderTable) -> (r: HttpHeaders<'a>)
        ensures
            r.0 is Ref,
            !r.writable(),
            r.0@ == *table,
            r@ == table@,
    {
        HttpHeaders(OwnOrRef::borrow(table))
    }

    /// Borrows mutably a collection that someone else owns; writes through
    /// the result change the owner's collection in place.
    pub fn borrowed_mut(table: &'a mut HeaderTable) -> (r: HttpHeaders<'a>)
        ensures
            r.0 is RefMut,
            r.writable(),
            r.0@ == *old(table),
            r@ == old(table)@,
    {
        HttpHeaders(OwnOrRef::borrow_mut(table))
    }
}

impl<'a> From<&'a HeaderTable> for HttpHeaders<'a> {
    /// Borrows a collection that someone else owns.
    fn from(table: &'a HeaderTable) -> (r: HttpHeaders<'a>) {
        HttpHeaders::borrowed(table)
    }
}

impl<'a> vstd::std_specs::convert::FromSpecImpl<&'a HeaderTable> for HttpHeaders<'a> {
    open spec fn obeys_from_spec() -> bool {
        true
    }

    open spec fn from_spec(table: &'a HeaderTable) -> HttpHeaders<'a> {
        HttpHeaders(OwnOrRef::Ref(table))
    }
}

/// Setting a field and then reading it gives back exactly the bytes that were
/// written, and leaves every other field as it was.
pub proof fn lemma_set_then_get(h: Map<HeaderId, Seq<u8>>, id: HeaderId, v: Seq<u8>, other: HeaderId)
    ensures
        h.insert(id, v).contains_key(id),
        h.insert(id, v)[id] == v,
        other != id ==> (h.insert(id, v).contains_key(other) == h.contains_key(other)),
        other != id && h.contains_key(other) ==> h.insert(id, v)[other] == h[other],
{
}

} // verus!
