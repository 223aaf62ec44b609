//! Small inline lists backed by `smallvec::SmallVec`, with contracts for
//! the operations that the library performs on them.

use vstd::prelude::*;
use smallvec::SmallVec;

verus! {

/// A list of key names stored inline up to four entries
/// (`SmallVec<[String; 4]>`).
#[verifier::external_body]
#[derive(Debug)]
pub struct KeyList {
    inner: SmallVec<[String; 4]>,
}

/// The key names held by a [`KeyList`], in order.
pub uninterp spec fn key_list_items(v: KeyList) -> Seq<String>;

impl View for KeyList {
    type V = Seq<String>;

    open spec fn view(&self) -> Seq<String> {
        key_list_items(*self)
    }
}

impl KeyList {
    /// `SmallVec::new`: an empty list.
    #[verifier::external_body]
    pub fn new() -> (r: KeyList)
        ensures
            key_list_items(r) == Seq::<String>::empty(),
    {
        KeyList { inner: SmallVec::new() }
    }

    /// `SmallVec::from_vec`: a list holding the items of `v` in order.
    #[verifier::external_body]
    pub fn from_vec(v: Vec<String>) -> (r: KeyList)
        ensures
            key_list_items(r) == v@,
    {
        KeyList { inner: SmallVec::from_vec(v) }
    }

    /// `SmallVec::len`.
    #[verifier::external_body]
    pub fn len(&self) -> (n: usize)
        ensures
            n == key_list_items(*self).len(),
    {
        self.inner.len()
    }

    /// `SmallVec::as_slice`: the items in order.
    #[verifier::external_body]
    pub fn as_slice(&self) -> (s: &[String])
        ensures
            s@ == key_list_items(*self),
    {
        self.inner.as_slice()
    }

    /// `SmallVec::push`: appends `item` at the end. The bound on the length
    /// keeps the growth computation of the buffer free of overflow.
    #[verifier::external_body]
    pub fn push(&mut self, item: String)
        requires
            key_list_items(*old(self)).len() < 0x100_0000_0000_0000,
        ensures
            key_list_items(*final(self)) == key_list_items(*old(self)).push(item),
    {
        self.inner.push(item);
    }

    /// `SmallVec::remove`: removes the item at `index`, shifting the later
    /// ones down.
    #[verifier::external_body]
    pub fn remove(&mut self, index: usize) -> (r: String)
        requires
            index < key_list_items(*old(self)).len(),
        ensures
            r == key_list_items(*old(self))[index as int],
            key_list_items(*final(self)) == key_list_items(*old(self)).remove(index as int),
    {
        self.inner.remove(index)
    }

    /// `SmallVec::clear`.
    #[verifier::external_body]
    pub fn clear(&mut self)
        ensures
            key_list_items(*final(self)) == Seq::<String>::empty(),
    {
        self.inner.clear();
    }
}

impl Clone for KeyList {
    /// `Clone::clone` of `SmallVec`, which clones each item.
    #[verifier::external_body]
    fn clone(&self) -> (r: KeyList)
        ensures
            key_list_items(r) == key_list_items(*self),
    {
        KeyList { inner: self.inner.clone() }
    }
}

/// A list of small indices stored inline up to four entries
/// (`SmallVec<[u8; 4]>`).
#[verifier::external_body]
#[derive(Debug)]
pub struct IndexList {
    inner: SmallVec<[u8; 4]>,
}

/// The indices held by an [`IndexList`], in order.
pub uninterp spec fn index_list_items(v: IndexList) -> Seq<u8>;

impl View for IndexList {
    type V = Seq<u8>;

    open spec fn view(&self) -> Seq<u8> {
        index_list_items(*self)
    }
}

impl IndexList {
    /// `SmallVec::from_vec`: a list holding the items of `v` in order.
    #[verifier::external_body]
    pub fn from_vec(v: Vec<u8>) -> (r: IndexList)
        ensures
            index_list_items(r) == v@,
    {
        IndexList { inner: SmallVec::from_vec(v) }
    }

    /// `SmallVec::len`.
    #[verifier::external_body]
    pub fn len(&self) -> (n: usize)
        ensures
            n == index_list_items(*self).len(),
    {
        self.inner.len()
    }

    /// `SmallVec::as_slice`: the items in order.
    #[verifier::external_body]
    pub fn as_slice(&self) -> (s: &[u8])
        ensures
            s@ == index_list_items(*self),
    {
        self.inner.as_slice()
    }
}

impl Clone for IndexList {
    /// `Clone::clone` of `SmallVec`, which copies each item.
    #[verifier::external_body]
    fn clone(&self) -> (r: IndexList)
        ensures
            index_list_items(r) == index_list_items(*self),
    {
        IndexList { inner: self.inner.clone() }
    }
}

/// A buffer of UTF-16 code units stored inline up to 64 units
/// (`SmallVec<[u16; 64]>`).
#[verifier::external_body]
#[derive(Debug)]
pub struct TooltipBuffer {
    inner: SmallVec<[u16; 64]>,
}

/// The code units held by a [`TooltipBuffer`], in order.
pub uninterp spec fn tooltip_units(v: TooltipBuffer) -> Seq<u16>;

impl View for TooltipBuffer {
    type V = Seq<u16>;

    open spec fn view(&self) -> Seq<u16> {
        tooltip_units(*self)
    }
}

impl TooltipBuffer {
    /// `SmallVec::new`: an empty buffer.
    #[verifier::external_body]
    pub fn new() -> (r: TooltipBuffer)
        ensures
            tooltip_units(r) == Seq::<u16>::empty(),
    {
        TooltipBuffer { inner: SmallVec::new() }
    }

    /// `SmallVec::clear`.
    #[verifier::external_body]
    pub fn clear(&mut self)
        ensures
            tooltip_units(*final(self)) == Seq::<u16>::empty(),
    {
        self.inner.clear();
    }

    /// `SmallVec::push`: appends `unit` at the end. The bound on the
    /// length keeps the growth computation of the buffer free of overflow.
    #[verifier::external_body]
    pub fn push(&mut self, unit: u16)
        requires
            tooltip_units(*old(self)).len() < 0x100_0000_0000_0000,
        ensures
            tooltip_units(*final(self)) == tooltip_units(*old(self)).push(unit),
    {
        self.inner.push(unit);
    }

    /// `SmallVec::as_slice`: the units in order.
    #[verifier::external_body]
    pub fn as_slice(&self) -> (s: &[u16])
        ensures
            s@ == tooltip_units(*self),
    {
        self.inner.as_slice()
    }
}

/// A buffer of UTF-16 code units stored inline up to 128 units
/// (`SmallVec<[u16; 128]>`).
#[verifier::external_body]
#[derive(Debug)]
pub struct TitleBuffer {
    inner: SmallVec<[u16; 128]>,
}

/// The code units held by a [`TitleBuffer`], in order.
pub uninterp spec fn title_units(v: TitleBuffer) -> Seq<u16>;

impl View for TitleBuffer {
    type V = Seq<u16>;

    open spec fn view(&self) -> Seq<u16> {
        title_units(*self)
    }
}

impl TitleBuffer {
    /// `SmallVec::new`: an empty buffer.
    #[verifier::external_body]
    pub fn new() -> (r: TitleBuffer)
        ensures
            title_units(r) == Seq::<u16>::empty(),
    {
        TitleBuffer { inner: SmallVec::new() }
    }

    /// `SmallVec::clear`.
    #[verifier::external_body]
    pub fn clear(&mut self)
        ensures
            title_units(*final(self)) == Seq::<u16>::empty(),
    {
        self.inner.clear();
    }

    /// `SmallVec::push`: appends `unit` at the end. The bound on the
    /// length keeps the growth computation of the buffer free of overflow.
    #[verifier::external_body]
    pub fn push(&mut self, unit: u16)
        requires
            title_units(*old(self)).len() < 0x100_0000_0000_0000,
        ensures
            title_units(*final(self)) == title_units(*old(self)).push(unit),
    {
        self.inner.push(unit);
    }

    /// `SmallVec::as_slice`: the units in order.
    #[verifier::external_body]
    pub fn as_slice(&self) -> (s: &[u16])
        ensures
            s@ == title_units(*self),
    {
        self.inner.as_slice()
    }
}

/// A buffer of UTF-16 code units stored inline up to 256 units
/// (`SmallVec<[u16; 256]>`).
#[verifier::external_body]
#[derive(Debug)]
pub struct MessageBuffer {
    inner: SmallVec<[u16; 256]>,
}

/// The code units held by a [`MessageBuffer`], in order.
pub uninterp spec fn message_units(v: MessageBuffer) -> Seq<u16>;

impl View for MessageBuffer {
    type V = Seq<u16>;

    open spec fn view(&self) -> Seq<u16> {
        message_units(*self)
    }
}

impl MessageBuffer {
    /// `SmallVec::new`: an empty buffer.
    #[verifier::external_body]
    pub fn new() -> (r: MessageBuffer)
        ensures
            message_units(r) == Seq::<u16>::empty(),
    {
        MessageBuffer { inner: SmallVec::new() }
    }

    /// `SmallVec::clear`.
    #[verifier::external_body]
    pub fn clear(&mut self)
        ensures
            message_units(*final(self)) == Seq::<u16>::empty(),
    {
        self.inner.clear();
    }

    /// `SmallVec::push`: appends `unit` at the end. The bound on the
    /// length keeps the growth computation of the buffer free of overflow.
    #[verifier::external_body]
    pub fn push(&mut self, unit: u16)
        requires
            message_units(*old(self)).len() < 0x100_0000_0000_0000,
        ensures
            message_units(*final(self)) == message_units(*old(self)).push(unit),
    {
        self.inner.push(unit);
    }

    /// `SmallVec::as_slice`: the units in order.
    #[verifier::external_body]
    pub fn as_slice(&self) -> (s: &[u16])
        ensures
            s@ == message_units(*self),
    {
        self.inner.as_slice()
    }
}

} // verus!
