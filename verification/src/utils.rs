//! Small value types shared by the capture and reload code.

use vstd::prelude::*;

pub mod frame_counter;
pub mod input;
pub mod paths;
pub mod recorder;
pub mod shader_compiler;
pub mod text;

verus! {

/// Bytes of one RGBA8 pixel.
pub const BYTES_PER_PIXEL: u32 = 4;

/// The largest even number that is not above `n`.
pub open spec fn even_floor(n: int) -> int {
    n - n % 2
}

/// How many bytes must follow `len` bytes to reach the next multiple of `align`.
pub open spec fn padding_to(len: int, align: int) -> int
    recommends
        align > 0,
{
    (align - len % align) % align
}

/// Size of a captured image and the length of its rows in a buffer whose rows
/// start at multiples of an alignment.
#[derive(Debug, Clone, Copy)]
pub struct ImageDimentions {
    pub width: u32,
    pub height: u32,
    pub unpadded_bytes_per_row: u32,
    pub padded_bytes_per_row: u32,
}

impl ImageDimentions {
    /// Whether rows of `width` pixels, padded to `align`, have a length that fits.
    pub open spec fn fits(width: u32, align: u32) -> bool {
        let unpadded = even_floor(width as int) * 4;
        align > 0 && unpadded + padding_to(unpadded, align as int) <= u32::MAX
    }

    /// The dimensions that `new` computes.
    pub open spec fn spec_new(width: u32, height: u32, align: u32) -> ImageDimentions {
        let unpadded = even_floor(width as int) * 4;
        ImageDimentions {
            width: even_floor(width as int) as u32,
            height: even_floor(height as int) as u32,
            unpadded_bytes_per_row: unpadded as u32,
            padded_bytes_per_row: (unpadded + padding_to(unpadded, align as int)) as u32,
        }
    }

    /// Rows are no shorter than their pixels and end on the alignment they were
    /// padded to, and both sides are even.
    pub open spec fn aligned_to(&self, align: u32) -> bool {
        &&& self.width % 2 == 0
        &&& self.height % 2 == 0
        &&& self.unpadded_bytes_per_row == self.width * 4
        &&& self.unpadded_bytes_per_row <= self.padded_bytes_per_row
        &&& self.padded_bytes_per_row - self.unpadded_bytes_per_row < align
        &&& self.padded_bytes_per_row % align == 0
    }

    /// Whether rows of `width` pixels, padded to `align`, have a length that
    /// fits.
    pub fn measurable(width: u32, align: u32) -> (ok: bool)
        ensures
            ok == Self::fits(width, align),
    {
        if align == 0 {
            return false;
        }
        let even: u32 = width - width % 2;
        if even > u32::MAX / 4 {
            return false;
        }
        let unpadded: u32 = even * BYTES_PER_PIXEL;
        let padding: u32 = (align - unpadded % align) % align;
        unpadded <= u32::MAX - padding
    }

    /// Rounds both sides down to even numbers and pads each row of RGBA8
    /// pixels to the next multiple of `align`.
    pub fn new(width: u32, height: u32, align: u32) -> (dims: Self)
        requires
            Self::fits(width, align),
        ensures
            dims == Self::spec_new(width, height, align),
            dims.aligned_to(align),
    {
        let height: u32 = height - height % 2;
        let width: u32 = width - width % 2;
        let unpadded_bytes_per_row: u32 = width * BYTES_PER_PIXEL;
        let row_padding: u32 = (align - unpadded_bytes_per_row % align) % align;
        let padded_bytes_per_row: u32 = unpadded_bytes_per_row + row_padding;
        proof {
            lemma_padding_aligns(unpadded_bytes_per_row as int, align as int);
        }
        Self { width, height, unpadded_bytes_per_row, padded_bytes_per_row }
    }

    /// Bytes of a buffer that holds every padded row.
    pub open spec fn spec_linear_size(&self) -> int {
        self.padded_bytes_per_row * self.height
    }

    /// Bytes of a buffer that holds every padded row.
    pub fn linear_size(&self) -> (size: u64)
        ensures
            size == self.spec_linear_size(),
    {
        proof {
            assert(self.padded_bytes_per_row * self.height <= u32::MAX * u32::MAX)
                by (nonlinear_arith)
                requires
                    0 <= self.padded_bytes_per_row <= u32::MAX,
                    0 <= self.height <= u32::MAX,
            ;
        }
        (self.padded_bytes_per_row as u64) * (self.height as u64)
    }
}

/// Types whose values take up room: their size in bytes can stand where a
/// size of zero is not allowed.
pub trait NonZeroSized: Sized {
    /// Size of a value of the type in bytes.
    fn size() -> (size: u64)
        requires
            vstd::layout::size_of::<Self>() > 0,
        ensures
            size == vstd::layout::size_of::<Self>(),
            size > 0,
    ;
}

impl<T> NonZeroSized for T where T: Sized {
    fn size() -> (size: u64) {
        core::mem::size_of::<T>() as u64
    }
}

/// A map from a file's path to the values filed under it, which keeps every
/// value that was pushed under a key, in the order of the pushes.
#[derive(Debug)]
pub struct ContiniousHashMap<V> {
    keys: Vec<String>,
    buckets: Vec<Vec<V>>,
}

impl<V> View for ContiniousHashMap<V> {
    type V = Map<Seq<char>, Seq<V>>;

    /// The values under each key that holds any.
    closed spec fn view(&self) -> Map<Seq<char>, Seq<V>> {
        Map::new(|k: Seq<char>| self.has_slot(k), |k: Seq<char>| self.buckets[self.slot(k)]@)
    }
}

impl<V> ContiniousHashMap<V> {
    spec fn is_slot(&self, key: Seq<char>, i: int) -> bool {
        0 <= i < self.keys.len() && self.keys[i]@ == key
    }

    spec fn has_slot(&self, key: Seq<char>) -> bool {
        exists|i: int| self.is_slot(key, i)
    }

    spec fn slot(&self, key: Seq<char>) -> int {
        choose|i: int| self.is_slot(key, i)
    }

    /// Each key stands once, and with at least one value.
    pub closed spec fn wf(&self) -> bool {
        &&& self.keys.len() == self.buckets.len()
        &&& forall|i: int, j: int|
            0 <= i < j < self.keys.len() ==> self.keys[i]@ != self.keys[j]@
        &&& forall|i: int| 0 <= i < self.buckets.len() ==> (#[trigger] self.buckets[i]).len() > 0
    }

    /// The values under `key`, none where the key is absent.
    pub open spec fn values_of(&self, key: Seq<char>) -> Seq<V> {
        if self@.contains_key(key) {
            self@[key]
        } else {
            Seq::empty()
        }
    }

    /// Creates an empty map.
    pub fn new() -> (map: Self)
        ensures
            map.wf(),
            map@ == Map::<Seq<char>, Seq<V>>::empty(),
    {
        let map = Self { keys: Vec::new(), buckets: Vec::new() };
        assert(map@ =~= Map::<Seq<char>, Seq<V>>::empty()) by {
            assert forall|k: Seq<char>| !map.has_slot(k) by {
                assert forall|i: int| !map.is_slot(k, i) by {}
            }
        }
        map
    }

    /// The slot of `key`, if it has one.
    fn find(&self, key: &String) -> (found: Option<usize>)
        requires
            self.wf(),
        ensures
            match found {
                Some(i) => self.is_slot(key@, i as int) && self.slot(key@) == i,
                None => !self.has_slot(key@),
            },
    {
        let mut i: usize = 0;
        while i < self.keys.len()
            invariant
                self.wf(),
                i <= self.keys.len(),
                forall|j: int| 0 <= j < i ==> !self.is_slot(key@, j),
            decreases self.keys.len() - i,
        {
            if self.keys[i] == *key {
                assert(self.is_slot(key@, i as int));
                return Some(i);
            }
            i += 1;
        }
        assert forall|j: int| !self.is_slot(key@, j) by {}
        None
    }

    /// Whether any value stands under `key`.
    pub fn contains_key(&self, key: &String) -> (found: bool)
        requires
            self.wf(),
        ensures
            found == self@.contains_key(key@),
    {
        self.find(key).is_some()
    }

    /// The values under `key`, in the order in which they were pushed.
    pub fn get(&self, key: &String) -> (values: Option<&Vec<V>>)
        requires
            self.wf(),
        ensures
            match values {
                Some(v) => self@.contains_key(key@) && v@ == self@[key@] && v@.len() > 0,
                None => !self@.contains_key(key@),
            },
    {
        match self.find(key) {
            Some(i) => Some(&self.buckets[i]),
            None => None,
        }
    }

    /// Number of keys.
    pub fn len(&self) -> (n: usize)
        requires
            self.wf(),
        ensures
            n == self@.dom().len(),
            self@.dom().finite(),
    {
        proof {
            self.lemma_dom_len(self.keys.len() as int);
            assert(self.dom_upto(self.keys.len() as int) =~= self@.dom());
        }
        self.keys.len()
    }

    spec fn dom_upto(&self, n: int) -> Set<Seq<char>> {
        Set::new(|k: Seq<char>| exists|i: int| 0 <= i < n && self.is_slot(k, i))
    }

    proof fn lemma_dom_len(&self, n: int)
        requires
            self.wf(),
            0 <= n <= self.keys.len(),
        ensures
            self.dom_upto(n).finite(),
            self.dom_upto(n).len() == n,
        decreases n,
    {
        if n == 0 {
            assert(self.dom_upto(0) =~= Set::<Seq<char>>::empty());
        } else {
            self.lemma_dom_len(n - 1);
            let k = self.keys[n - 1]@;
            assert(self.is_slot(k, n - 1));
            assert(!self.dom_upto(n - 1).contains(k));
            assert(self.dom_upto(n) =~= self.dom_upto(n - 1).insert(k));
        }
    }

    /// Files `value` under `key`, behind the values that the key holds already.
    pub fn push_value(&mut self, key: String, value: V)
        requires
            old(self).wf(),
        ensures
            final(self).wf(),
            final(self)@ == old(self)@.insert(key@, old(self).values_of(key@).push(value)),
    {
        match self.find(&key) {
            Some(i) => {
                self.buckets[i].push(value);
                proof {
                    let before = *old(self);
                    let after = *self;
                    assert forall|k: Seq<char>, j: int| after.is_slot(k, j) == before.is_slot(k, j) by {}
                    assert forall|k: Seq<char>| after.has_slot(k) == before.has_slot(k) by {
                        if before.has_slot(k) {
                            assert(after.is_slot(k, before.slot(k)));
                        }
                        if after.has_slot(k) {
                            assert(before.is_slot(k, after.slot(k)));
                        }
                    }
                    assert forall|k: Seq<char>| after.has_slot(k) implies after.slot(k)
                        == before.slot(k) by {
                        assert(before.is_slot(k, after.slot(k)));
                        assert(before.is_slot(k, before.slot(k)));
                    }
                    assert(after@ =~= before@.insert(key@, before.values_of(key@).push(value)));
                    assert forall|j: int| 0 <= j < after.buckets.len() implies (
                    #[trigger] after.buckets[j]).len() > 0 by {
                        if j != i {
                            assert(after.buckets[j] == before.buckets[j]);
                        }
                    }
                }
            },
            None => {
                let mut bucket: Vec<V> = Vec::new();
                bucket.push(value);
                self.keys.push(key);
                self.buckets.push(bucket);
                proof {
                    let before = *old(self);
                    let after = *self;
                    let n = before.keys.len() as int;
                    assert(after.is_slot(key@, n));
                    assert forall|i: int, j: int| 0 <= i < j < after.keys.len() implies after.keys[i]@
                        != after.keys[j]@ by {
                        if j == n {
                            assert(!before.is_slot(key@, i));
                        }
                    }
                    assert forall|j: int| 0 <= j < after.buckets.len() implies (
                    #[trigger] after.buckets[j]).len() > 0 by {
                        if j < n {
                            assert(after.buckets[j] == before.buckets[j]);
                        }
                    }
                    assert forall|k: Seq<char>, j: int| after.is_slot(k, j) == (before.is_slot(k, j)
                        || (j == n && k == key@)) by {}
                    assert forall|k: Seq<char>| after.has_slot(k) == (before.has_slot(k) || k
                        == key@) by {
                        if before.has_slot(k) {
                            assert(after.is_slot(k, before.slot(k)));
                        }
                        if after.has_slot(k) && k != key@ {
                            assert(before.is_slot(k, after.slot(k)));
                        }
                    }
                    assert forall|k: Seq<char>| before.has_slot(k) implies after.slot(k)
                        == before.slot(k) by {
                        assert(after.is_slot(k, before.slot(k)));
                        assert(after.is_slot(k, after.slot(k)));
                        assert(before.is_slot(k, before.slot(k)));
                    }
                    assert(after.is_slot(key@, after.slot(key@)));
                    assert(after.slot(key@) == n);
                    assert(before.values_of(key@).push(value) =~= bucket@);
                    assert(after@ =~= before@.insert(key@, before.values_of(key@).push(value)));
                }
            },
        }
    }
}

/// Adding the padding to a length gives a multiple of the alignment, and the
/// padding is shorter than the alignment.
pub proof fn lemma_padding_aligns(len: int, align: int)
    requires
        len >= 0,
        align > 0,
    ensures
        0 <= padding_to(len, align) < align,
        (len + padding_to(len, align)) % align == 0,
{
    let r = len % align;
    assert(0 <= r < align);
    assert(len == align * (len / align) + r) by {
        vstd::arithmetic::div_mod::lemma_fundamental_div_mod(len, align);
    }
    if r == 0 {
        assert((align - r) % align == 0) by {
            vstd::arithmetic::div_mod::lemma_mod_self_0(align);
        }
    } else {
        assert((align - r) % align == align - r) by {
            vstd::arithmetic::div_mod::lemma_small_mod((align - r) as nat, align as nat);
        }
        assert(len + (align - r) == align * (len / align + 1)) by (nonlinear_arith)
            requires
                len == align * (len / align) + r,
        ;
        assert((align * (len / align + 1)) % align == 0) by {
            vstd::arithmetic::div_mod::lemma_mod_multiples_basic(len / align + 1, align);
            assert(align * (len / align + 1) == (len / align + 1) * align) by (nonlinear_arith);
        }
    }
}

} // verus!
