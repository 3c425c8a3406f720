//! Audio-hardware object properties, as a value model.
//!
//! The hardware abstraction layer is a property store: each audio object
//! answers reads and writes addressed by a (selector, scope, element)
//! triple.  [`AudioHw`] models that store as a table of entries, and the
//! accessors state exactly which entry each call reads or replaces and
//! which status code comes back when none is there.

use vstd::prelude::*;

use crate::os::Status;

verus! {

/// Largest number of 32-bit words one property value may hold; keeps the
/// byte size of every property inside `u32`.
pub const MAX_PROP_WORDS: usize = 0x3FFF_FFFF;

/// Identifier of one audio object.
#[derive(Clone, Copy, PartialEq, Eq, Structural, Debug, Hash)]
pub struct AudioObjId(pub u32);

/// What a property address selects.
#[derive(Clone, Copy, PartialEq, Eq, Structural, Debug, Hash)]
pub struct AudioObjPropSelector(pub u32);

/// Which side of the object a property address speaks of.
#[derive(Clone, Copy, PartialEq, Eq, Structural, Debug, Hash)]
pub struct AudioObjPropScope(pub u32);

/// Which element of the scope a property address speaks of.
#[derive(Clone, Copy, PartialEq, Eq, Structural, Debug, Hash)]
pub struct AudioObjPropElement(pub u32);

/// A full property address.
#[derive(Clone, Copy, PartialEq, Eq, Structural, Debug, Hash)]
pub struct AudioObjPropAddr {
    pub selector: AudioObjPropSelector,
    pub scope: AudioObjPropScope,
    pub element: AudioObjPropElement,
}

impl AudioObjId {
    /// The system object, which answers the hardware-wide properties.
    pub fn sys_object() -> (r: AudioObjId)
        ensures
            r.0 == 1,
    {
        AudioObjId(1)
    }
}

impl AudioObjPropSelector {
    /// All devices currently available to the system ('dev#').
    pub fn hardware_devices() -> (r: AudioObjPropSelector)
        ensures
            r.0 == 0x64657623,
    {
        AudioObjPropSelector(0x64657623)
    }

    /// The default input device ('dIn ').
    pub fn hardware_default_input_device() -> (r: AudioObjPropSelector)
        ensures
            r.0 == 0x64496e20,
    {
        AudioObjPropSelector(0x64496e20)
    }

    /// The default output device ('dOut').
    pub fn hardware_default_output_device() -> (r: AudioObjPropSelector)
        ensures
            r.0 == 0x644f7574,
    {
        AudioObjPropSelector(0x644f7574)
    }

    /// The stream configuration of a device ('slay').
    pub fn stream_cfg() -> (r: AudioObjPropSelector)
        ensures
            r.0 == 0x736c6179,
    {
        AudioObjPropSelector(0x736c6179)
    }

    /// An object's name ('lnam').
    pub fn name() -> (r: AudioObjPropSelector)
        ensures
            r.0 == 0x6c6e616d,
    {
        AudioObjPropSelector(0x6c6e616d)
    }

    /// An object's manufacturer ('lmak').
    pub fn manufacturer() -> (r: AudioObjPropSelector)
        ensures
            r.0 == 0x6c6d616b,
    {
        AudioObjPropSelector(0x6c6d616b)
    }
}

impl AudioObjPropScope {
    /// The whole object ('glob').
    pub fn global() -> (r: AudioObjPropScope)
        ensures
            r.0 == 0x676c6f62,
    {
        AudioObjPropScope(0x676c6f62)
    }

    /// The input side ('inpt').
    pub fn input() -> (r: AudioObjPropScope)
        ensures
            r.0 == 0x696e7074,
    {
        AudioObjPropScope(0x696e7074)
    }

    /// The output side ('outp').
    pub fn output() -> (r: AudioObjPropScope)
        ensures
            r.0 == 0x6f757470,
    {
        AudioObjPropScope(0x6f757470)
    }
}

impl AudioObjPropElement {
    /// The main element.
    pub fn main() -> (r: AudioObjPropElement)
        ensures
            r.0 == 0,
    {
        AudioObjPropElement(0)
    }

    /// Every element.
    pub fn wildcard() -> (r: AudioObjPropElement)
        ensures
            r.0 == 0xffffffff,
    {
        AudioObjPropElement(0xffffffff)
    }
}

/// The status code for a property the addressed object does not have
/// ('who?').
pub fn err_unknown_property() -> (r: Status)
    ensures
        r.0 == 0x77686f3f,
{
    Status(0x77686f3f)
}

/// The status code for a property whose stored value cannot fill the
/// caller's buffer ('!siz').
pub fn err_bad_prop_size() -> (r: Status)
    ensures
        r.0 == 0x2173697a,
{
    Status(0x2173697a)
}

/// One stored property value: whose object, at which address, holding
/// which 32-bit words.
pub struct PropEntry {
    pub obj: AudioObjId,
    pub addr: AudioObjPropAddr,
    pub words: Vec<u32>,
}

/// One stored string-valued property.
pub struct StrPropEntry {
    pub obj: AudioObjId,
    pub addr: AudioObjPropAddr,
    pub text: String,
}

/// Index of the first entry stored for `(obj, addr)`, or `-1` when none
/// is.
pub open spec fn find_index(entries: Seq<PropEntry>, obj: AudioObjId, addr: AudioObjPropAddr) -> int
    decreases entries.len(),
{
    if entries.len() == 0 {
        -1
    } else if entries.first().obj == obj && entries.first().addr == addr {
        0
    } else {
        let r = find_index(entries.drop_first(), obj, addr);
        if r < 0 {
            -1
        } else {
            r + 1
        }
    }
}

/// The first stored value for `(obj, addr)`, if any.
pub open spec fn find_prop(entries: Seq<PropEntry>, obj: AudioObjId, addr: AudioObjPropAddr) -> Option<
    Seq<u32>,
> {
    let i = find_index(entries, obj, addr);
    if i < 0 {
        None
    } else {
        Some(entries[i].words@)
    }
}

/// Index of the first string entry stored for `(obj, addr)`, or `-1`.
pub open spec fn find_str_index(
    entries: Seq<StrPropEntry>,
    obj: AudioObjId,
    addr: AudioObjPropAddr,
) -> int
    decreases entries.len(),
{
    if entries.len() == 0 {
        -1
    } else if entries.first().obj == obj && entries.first().addr == addr {
        0
    } else {
        let r = find_str_index(entries.drop_first(), obj, addr);
        if r < 0 {
            -1
        } else {
            r + 1
        }
    }
}

/// What `find_index` promises: it is `-1` exactly when no entry matches,
/// and otherwise the least matching index.
proof fn lemma_find_index(entries: Seq<PropEntry>, obj: AudioObjId, addr: AudioObjPropAddr)
    ensures
        -1 <= find_index(entries, obj, addr) < entries.len(),
        find_index(entries, obj, addr) >= 0 ==> {
            &&& entries[find_index(entries, obj, addr)].obj == obj
            &&& entries[find_index(entries, obj, addr)].addr == addr
            &&& forall|i: int|
                0 <= i < find_index(entries, obj, addr) ==> !((#[trigger] entries[i]).obj == obj
                    && entries[i].addr == addr)
        },
        find_index(entries, obj, addr) == -1 ==> forall|i: int|
            0 <= i < entries.len() ==> !((#[trigger] entries[i]).obj == obj && entries[i].addr
                == addr),
    decreases entries.len(),
{
    if entries.len() > 0 {
        lemma_find_index(entries.drop_first(), obj, addr);
        assert forall|i: int| 1 <= i < entries.len() implies entries.drop_first()[i - 1]
            == entries[i] by {}
    }
}

/// Same, for the string entries.
proof fn lemma_find_str_index(entries: Seq<StrPropEntry>, obj: AudioObjId, addr: AudioObjPropAddr)
    ensures
        -1 <= find_str_index(entries, obj, addr) < entries.len(),
        find_str_index(entries, obj, addr) >= 0 ==> {
            &&& entries[find_str_index(entries, obj, addr)].obj == obj
            &&& entries[find_str_index(entries, obj, addr)].addr == addr
            &&& forall|i: int|
                0 <= i < find_str_index(entries, obj, addr) ==> !((#[trigger] entries[i]).obj
                    == obj && entries[i].addr == addr)
        },
        find_str_index(entries, obj, addr) == -1 ==> forall|i: int|
            0 <= i < entries.len() ==> !((#[trigger] entries[i]).obj == obj && entries[i].addr
                == addr),
    decreases entries.len(),
{
    if entries.len() > 0 {
        lemma_find_str_index(entries.drop_first(), obj, addr);
        assert forall|i: int| 1 <= i < entries.len() implies entries.drop_first()[i - 1]
            == entries[i] by {}
    }
}

/// The modeled hardware property store.
pub struct AudioHw {
    entries: Vec<PropEntry>,
    str_entries: Vec<StrPropEntry>,
}

impl AudioHw {
    /// The stored word-valued properties, in store order.
    pub closed spec fn entries_view(self) -> Seq<PropEntry> {
        self.entries@
    }

    /// The stored string-valued properties, in store order.
    pub closed spec fn str_entries_view(self) -> Seq<StrPropEntry> {
        self.str_entries@
    }

    /// Every stored value is small enough that its byte size fits the
    /// 32-bit sizes the property interface reports.
    pub open spec fn wf(self) -> bool {
        forall|i: int|
            0 <= i < self.entries_view().len() ==> (#[trigger] self.entries_view()[i]).words@.len()
                <= MAX_PROP_WORDS
    }

    /// An empty property store.
    pub fn new() -> (hw: AudioHw)
        ensures
            hw.wf(),
            hw.entries_view() == Seq::<PropEntry>::empty(),
            hw.str_entries_view() == Seq::<StrPropEntry>::empty(),
    {
        let hw = AudioHw { entries: Vec::new(), str_entries: Vec::new() };
        proof {
            assert(hw.entries_view() =~= Seq::<PropEntry>::empty());
            assert(hw.str_entries_view() =~= Seq::<StrPropEntry>::empty());
        }
        hw
    }

    /// Stores one word-valued property.
    pub fn add_entry(&mut self, obj: AudioObjId, addr: AudioObjPropAddr, words: Vec<u32>)
        requires
            old(self).wf(),
            words@.len() <= MAX_PROP_WORDS,
            old(self).entries_view().len() < usize::MAX,
        ensures
            final(self).wf(),
            final(self).entries_view().len() == old(self).entries_view().len() + 1,
            final(self).entries_view().last().obj == obj,
            final(self).entries_view().last().addr == addr,
            final(self).entries_view().last().words@ == words@,
            final(self).entries_view().drop_last() == old(self).entries_view(),
            final(self).str_entries_view() == old(self).str_entries_view(),
    {
        self.entries.push(PropEntry { obj, addr, words });
        proof {
            assert(self.entries_view().drop_last() =~= old(self).entries_view());
        }
    }

    /// Stores one string-valued property.
    pub fn add_str_entry(&mut self, obj: AudioObjId, addr: AudioObjPropAddr, text: String)
        requires
            old(self).wf(),
            old(self).str_entries_view().len() < usize::MAX,
        ensures
            final(self).wf(),
            final(self).str_entries_view().len() == old(self).str_entries_view().len() + 1,
            final(self).str_entries_view().last().obj == obj,
            final(self).str_entries_view().last().addr == addr,
            final(self).str_entries_view().last().text@ == text@,
            final(self).str_entries_view().drop_last() == old(self).str_entries_view(),
            final(self).entries_view() == old(self).entries_view(),
    {
        self.str_entries.push(StrPropEntry { obj, addr, text });
        proof {
            assert(self.entries_view() =~= old(self).entries_view());
            assert(self.str_entries_view().drop_last() =~= old(self).str_entries_view());
        }
    }

    /// Finds the first word-valued entry for `(obj, addr)`.
    fn find(&self, obj: AudioObjId, addr: &AudioObjPropAddr) -> (r: Option<usize>)
        ensures
            match r {
                Some(i) => (i as int) == find_index(self.entries_view(), obj, *addr),
                None => find_index(self.entries_view(), obj, *addr) == -1,
            },
    {
        proof {
            lemma_find_index(self.entries_view(), obj, *addr);
        }
        let n = self.entries.len();
        let mut i: usize = 0;
        while i < n
            invariant
                n == self.entries_view().len(),
                i <= n,
                forall|j: int|
                    0 <= j < i ==> !((#[trigger] self.entries_view()[j]).obj == obj
                        && self.entries_view()[j].addr == *addr),
                -1 <= find_index(self.entries_view(), obj, *addr) < n,
                find_index(self.entries_view(), obj, *addr) >= 0 ==> {
                    &&& self.entries_view()[find_index(self.entries_view(), obj, *addr)].obj == obj
                    &&& self.entries_view()[find_index(self.entries_view(), obj, *addr)].addr
                        == *addr
                    &&& forall|j: int|
                        0 <= j < find_index(self.entries_view(), obj, *addr) ==> !((
                        #[trigger] self.entries_view()[j]).obj == obj && self.entries_view()[j].addr
                            == *addr)
                },
                find_index(self.entries_view(), obj, *addr) == -1 ==> forall|j: int|
                    0 <= j < n ==> !((#[trigger] self.entries_view()[j]).obj == obj
                        && self.entries_view()[j].addr == *addr),
            decreases n - i,
        {
            let e = &self.entries[i];
            if e.obj == obj && e.addr == *addr {
                return Some(i);
            }
            i = i + 1;
        }
        None
    }

    /// Finds the first string-valued entry for `(obj, addr)`.
    fn find_str(&self, obj: AudioObjId, addr: &AudioObjPropAddr) -> (r: Option<usize>)
        ensures
            match r {
                Some(i) => (i as int) == find_str_index(self.str_entries_view(), obj, *addr),
                None => find_str_index(self.str_entries_view(), obj, *addr) == -1,
            },
    {
        proof {
            lemma_find_str_index(self.str_entries_view(), obj, *addr);
        }
        let n = self.str_entries.len();
        let mut i: usize = 0;
        while i < n
            invariant
                n == self.str_entries_view().len(),
                i <= n,
                forall|j: int|
                    0 <= j < i ==> !((#[trigger] self.str_entries_view()[j]).obj == obj
                        && self.str_entries_view()[j].addr == *addr),
                -1 <= find_str_index(self.str_entries_view(), obj, *addr) < n,
                find_str_index(self.str_entries_view(), obj, *addr) >= 0 ==> {
                    &&& self.str_entries_view()[find_str_index(
                        self.str_entries_view(),
                        obj,
                        *addr,
                    )].obj == obj
                    &&& self.str_entries_view()[find_str_index(
                        self.str_entries_view(),
                        obj,
                        *addr,
                    )].addr == *addr
                    &&& forall|j: int|
                        0 <= j < find_str_index(self.str_entries_view(), obj, *addr) ==> !((
                        #[trigger] self.str_entries_view()[j]).obj == obj
                            && self.str_entries_view()[j].addr == *addr)
                },
                find_str_index(self.str_entries_view(), obj, *addr) == -1 ==> forall|j: int|
                    0 <= j < n ==> !((#[trigger] self.str_entries_view()[j]).obj == obj
                        && self.str_entries_view()[j].addr == *addr),
            decreases n - i,
        {
            let e = &self.str_entries[i];
            if e.obj == obj && e.addr == *addr {
                return Some(i);
            }
            i = i + 1;
        }
        None
    }
}

/// The stream configuration of a device: the channel count of each
/// stream buffer, in stream order.
pub struct AudioBufListN {
    channels: Vec<u32>,
}

impl AudioBufListN {
    /// Channel counts per stream buffer.
    pub closed spec fn channels_view(self) -> Seq<u32> {
        self.channels@
    }

    /// How many stream buffers the configuration describes.
    pub fn buffers_len(&self) -> (n: usize)
        ensures
            (n as nat) == self.channels_view().len(),
    {
        self.channels.len()
    }

    /// The channel count of one stream buffer.
    pub fn channels(&self, i: usize) -> (c: u32)
        requires
            (i as nat) < self.channels_view().len(),
        ensures
            c == self.channels_view()[i as int],
    {
        self.channels[i]
    }
}

impl AudioObjId {
    /// Reads the byte size of a property: four bytes per stored word, or
    /// the unknown-property status when the object has no such property.
    pub fn prop_size(&self, hw: &AudioHw, address: &AudioObjPropAddr) -> (r: Result<u32, Status>)
        requires
            hw.wf(),
        ensures
            match find_prop(hw.entries_view(), *self, *address) {
                Some(words) => r == Ok::<u32, Status>((4 * words.len()) as u32),
                None => r == Err::<u32, Status>(Status(0x77686f3f)),
            },
    {
        proof {
            lemma_find_index(hw.entries_view(), *self, *address);
        }
        match hw.find(*self, address) {
            Some(i) => {
                let n = hw.entries[i].words.len();
                Ok((n as u32) * 4)
            },
            None => Err(err_unknown_property()),
        }
    }

    /// Reads a single-word property as an object identifier: the first
    /// stored word.  A missing property reports unknown-property; a
    /// stored value too small to fill one word reports the size error.
    pub fn prop(&self, hw: &AudioHw, address: &AudioObjPropAddr) -> (r: Result<AudioObjId, Status>)
        requires
            hw.wf(),
        ensures
            match find_prop(hw.entries_view(), *self, *address) {
                Some(words) => {
                    &&& words.len() > 0 ==> r == Ok::<AudioObjId, Status>(AudioObjId(words[0]))
                    &&& words.len() == 0 ==> r == Err::<AudioObjId, Status>(Status(0x2173697a))
                },
                None => r == Err::<AudioObjId, Status>(Status(0x77686f3f)),
            },
    {
        proof {
            lemma_find_index(hw.entries_view(), *self, *address);
        }
        match hw.find(*self, address) {
            Some(i) => {
                let e = &hw.entries[i];
                if e.words.len() > 0 {
                    Ok(AudioObjId(e.words[0]))
                } else {
                    Err(err_bad_prop_size())
                }
            },
            None => Err(err_unknown_property()),
        }
    }

    /// Reads a whole property as a vector of object identifiers, one per
    /// stored word.
    pub fn prop_vec(&self, hw: &AudioHw, address: &AudioObjPropAddr) -> (r: Result<
        Vec<AudioObjId>,
        Status,
    >)
        requires
            hw.wf(),
        ensures
            match find_prop(hw.entries_view(), *self, *address) {
                Some(words) => {
                    &&& r is Ok
                    &&& r->Ok_0@.len() == words.len()
                    &&& forall|k: int|
                        0 <= k < words.len() ==> (#[trigger] r->Ok_0@[k]).0 == words[k]
                },
                None => r == Err::<Vec<AudioObjId>, Status>(Status(0x77686f3f)),
            },
    {
        proof {
            lemma_find_index(hw.entries_view(), *self, *address);
        }
        match hw.find(*self, address) {
            Some(i) => {
                let e = &hw.entries[i];
                let n = e.words.len();
                let mut out: Vec<AudioObjId> = Vec::new();
                let mut k: usize = 0;
                while k < n
                    invariant
                        n == e.words@.len(),
                        k <= n,
                        out@.len() == k,
                        forall|j: int| 0 <= j < k ==> (#[trigger] out@[j]).0 == e.words@[j],
                    decreases n - k,
                {
                    out.push(AudioObjId(e.words[k]));
                    k = k + 1;
                }
                Ok(out)
            },
            None => Err(err_unknown_property()),
        }
    }

    /// Replaces the stored value of a property the object already has; a
    /// write to a property the object does not have reports
    /// unknown-property and changes nothing.
    pub fn set_prop(&self, hw: &mut AudioHw, address: &AudioObjPropAddr, val: Vec<u32>) -> (r:
        Result<(), Status>)
        requires
            old(hw).wf(),
            val@.len() <= MAX_PROP_WORDS,
        ensures
            final(hw).wf(),
            final(hw).str_entries_view() == old(hw).str_entries_view(),
            match find_prop(old(hw).entries_view(), *self, *address) {
                Some(_) => {
                    &&& r is Ok
                    &&& find_prop(final(hw).entries_view(), *self, *address) == Some(val@)
                    &&& final(hw).entries_view().len() == old(hw).entries_view().len()
                },
                None => r == Err::<(), Status>(Status(0x77686f3f)) && *final(hw) == *old(hw),
            },
    {
        proof {
            lemma_find_index(old(hw).entries_view(), *self, *address);
        }
        match hw.find(*self, address) {
            Some(i) => {
                let ghost pre = hw.entries@;
                let mut e = hw.entries.remove(i);
                e.words = val;
                let ghost enew = e;
                hw.entries.insert(i, e);
                proof {
                    assert(hw.entries@ =~= pre.update(i as int, enew));
                    lemma_find_index_update_words(pre, i as int, enew, *self, *address);
                    assert(hw.entries_view()[i as int] == enew);
                    assert forall|j: int| 0 <= j < hw.entries_view().len() implies (
                    #[trigger] hw.entries_view()[j]).words@.len() <= MAX_PROP_WORDS by {
                        assert(pre[j].words@.len() <= MAX_PROP_WORDS);
                    }
                }
                Ok(())
            },
            None => Err(err_unknown_property()),
        }
    }

    /// Reads the stream configuration of the given scope.
    pub fn stream_cfg(&self, hw: &AudioHw, scope: AudioObjPropScope) -> (r: Result<
        AudioBufListN,
        Status,
    >)
        requires
            hw.wf(),
        ensures
            ({
                let addr = AudioObjPropAddr {
                    selector: AudioObjPropSelector(0x736c6179),
                    scope,
                    element: AudioObjPropElement(0xffffffff),
                };
                match find_prop(hw.entries_view(), *self, addr) {
                    Some(words) => (r matches Ok(cfg) && cfg.channels_view() == words),
                    None => r == Err::<AudioBufListN, Status>(Status(0x77686f3f)),
                }
            }),
    {
        let addr = AudioObjPropAddr {
            selector: AudioObjPropSelector::stream_cfg(),
            scope,
            element: AudioObjPropElement::wildcard(),
        };
        proof {
            lemma_find_index(hw.entries_view(), *self, addr);
        }
        match hw.find(*self, &addr) {
            Some(i) => {
                let e = &hw.entries[i];
                let n = e.words.len();
                let mut channels: Vec<u32> = Vec::new();
                let mut k: usize = 0;
                while k < n
                    invariant
                        n == e.words@.len(),
                        k <= n,
                        channels@.len() == k,
                        forall|j: int| 0 <= j < k ==> channels@[j] == e.words@[j],
                    decreases n - k,
                {
                    channels.push(e.words[k]);
                    k = k + 1;
                }
                proof {
                    assert(channels@ =~= e.words@);
                }
                Ok(AudioBufListN { channels })
            },
            None => Err(err_unknown_property()),
        }
    }

    /// Reads a string-valued property, such as a device's name.
    pub fn cf_prop(&self, hw: &AudioHw, address: &AudioObjPropAddr) -> (r: Result<String, Status>)
        ensures
            ({
                let i = find_str_index(hw.str_entries_view(), *self, *address);
                &&& i >= 0 ==> (r matches Ok(s) && s@ == hw.str_entries_view()[i].text@)
                &&& i < 0 ==> r == Err::<String, Status>(Status(0x77686f3f))
            }),
    {
        proof {
            lemma_find_str_index(hw.str_entries_view(), *self, *address);
        }
        match hw.find_str(*self, address) {
            Some(i) => Ok(hw.str_entries[i].text.clone()),
            None => Err(err_unknown_property()),
        }
    }

    /// All devices currently available to the system.
    pub fn hardware_devices(&self, hw: &AudioHw) -> (r: Result<Vec<AudioObjId>, Status>)
        requires
            hw.wf(),
        ensures
            ({
                let addr = AudioObjPropAddr {
                    selector: AudioObjPropSelector(0x64657623),
                    scope: AudioObjPropScope(0x676c6f62),
                    element: AudioObjPropElement(0xffffffff),
                };
                match find_prop(hw.entries_view(), *self, addr) {
                    Some(words) => {
                        &&& r is Ok
                        &&& r->Ok_0@.len() == words.len()
                        &&& forall|k: int|
                            0 <= k < words.len() ==> (#[trigger] r->Ok_0@[k]).0 == words[k]
                    },
                    None => r == Err::<Vec<AudioObjId>, Status>(Status(0x77686f3f)),
                }
            }),
    {
        self.prop_vec(
            hw,
            &AudioObjPropAddr {
                selector: AudioObjPropSelector::hardware_devices(),
                scope: AudioObjPropScope::global(),
                element: AudioObjPropElement::wildcard(),
            },
        )
    }

    /// The default input device.
    pub fn default_input_device(&self, hw: &AudioHw) -> (r: Result<AudioObjId, Status>)
        requires
            hw.wf(),
        ensures
            ({
                let addr = AudioObjPropAddr {
                    selector: AudioObjPropSelector(0x64496e20),
                    scope: AudioObjPropScope(0x676c6f62),
                    element: AudioObjPropElement(0),
                };
                match find_prop(hw.entries_view(), *self, addr) {
                    Some(words) => {
                        &&& words.len() > 0 ==> r == Ok::<AudioObjId, Status>(AudioObjId(words[0]))
                        &&& words.len() == 0 ==> r == Err::<AudioObjId, Status>(Status(0x2173697a))
                    },
                    None => r == Err::<AudioObjId, Status>(Status(0x77686f3f)),
                }
            }),
    {
        self.prop(
            hw,
            &AudioObjPropAddr {
                selector: AudioObjPropSelector::hardware_default_input_device(),
                scope: AudioObjPropScope::global(),
                element: AudioObjPropElement::main(),
            },
        )
    }

    /// The default output device.
    pub fn default_output_device(&self, hw: &AudioHw) -> (r: Result<AudioObjId, Status>)
        requires
            hw.wf(),
        ensures
            ({
                let addr = AudioObjPropAddr {
                    selector: AudioObjPropSelector(0x644f7574),
                    scope: AudioObjPropScope(0x676c6f62),
                    element: AudioObjPropElement(0),
                };
                match find_prop(hw.entries_view(), *self, addr) {
                    Some(words) => {
                        &&& words.len() > 0 ==> r == Ok::<AudioObjId, Status>(AudioObjId(words[0]))
                        &&& words.len() == 0 ==> r == Err::<AudioObjId, Status>(Status(0x2173697a))
                    },
                    None => r == Err::<AudioObjId, Status>(Status(0x77686f3f)),
                }
            }),
    {
        self.prop(
            hw,
            &AudioObjPropAddr {
                selector: AudioObjPropSelector::hardware_default_output_device(),
                scope: AudioObjPropScope::global(),
                element: AudioObjPropElement::main(),
            },
        )
    }

    /// The input-side stream configuration.
    pub fn input_stream_cfg(&self, hw: &AudioHw) -> (r: Result<AudioBufListN, Status>)
        requires
            hw.wf(),
        ensures
            ({
                let addr = AudioObjPropAddr {
                    selector: AudioObjPropSelector(0x736c6179),
                    scope: AudioObjPropScope(0x696e7074),
                    element: AudioObjPropElement(0xffffffff),
                };
                match find_prop(hw.entries_view(), *self, addr) {
                    Some(words) => (r matches Ok(cfg) && cfg.channels_view() == words),
                    None => r == Err::<AudioBufListN, Status>(Status(0x77686f3f)),
                }
            }),
    {
        self.stream_cfg(hw, AudioObjPropScope::input())
    }

    /// The output-side stream configuration.
    pub fn output_stream_cfg(&self, hw: &AudioHw) -> (r: Result<AudioBufListN, Status>)
        requires
            hw.wf(),
        ensures
            ({
                let addr = AudioObjPropAddr {
                    selector: AudioObjPropSelector(0x736c6179),
                    scope: AudioObjPropScope(0x6f757470),
                    element: AudioObjPropElement(0xffffffff),
                };
                match find_prop(hw.entries_view(), *self, addr) {
                    Some(words) => (r matches Ok(cfg) && cfg.channels_view() == words),
                    None => r == Err::<AudioBufListN, Status>(Status(0x77686f3f)),
                }
            }),
    {
        self.stream_cfg(hw, AudioObjPropScope::output())
    }
}

/// Replacing the first matching entry with another entry for the same
/// object and address keeps it the first match.
proof fn lemma_find_index_update_words(
    entries: Seq<PropEntry>,
    i: int,
    e2: PropEntry,
    obj: AudioObjId,
    addr: AudioObjPropAddr,
)
    requires
        0 <= i < entries.len(),
        i == find_index(entries, obj, addr),
        e2.obj == obj,
        e2.addr == addr,
    ensures
        find_index(entries.update(i, e2), obj, addr) == i,
    decreases entries.len(),
{
    let updated = entries.update(i, e2);
    if i == 0 {
        assert(updated.first() == e2);
    } else {
        assert(updated.first() == entries.first());
        assert(updated.drop_first() =~= entries.drop_first().update(i - 1, e2));
        lemma_find_index_update_words(entries.drop_first(), i - 1, e2, obj, addr);
    }
}

} // verus!
