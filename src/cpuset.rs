//! A CPU bitmask laid out as the kernel's affinity calls expect it.
use vstd::prelude::*;

verus! {

/// Bits in one word of the mask.
pub const WORD_BITS: usize = 64;

/// Words needed for `num_cpus` CPUs: the ceiling of `num_cpus / 64`, and at least one.
pub open spec fn words_for(num_cpus: nat) -> nat {
    if num_cpus == 0 {
        1
    } else {
        ((num_cpus + 63) / 64) as nat
    }
}

/// The words of a set made for `num_cpus` CPUs: all zero.
pub open spec fn zero_words(num_cpus: nat) -> Seq<u64> {
    Seq::new(words_for(num_cpus), |_i: int| 0u64)
}

/// Whether bit `cpu` is set in `words`: bit `cpu % 64` of word `cpu / 64`, and
/// false where that word is beyond the end.
pub open spec fn bit_in(words: Seq<u64>, cpu: nat) -> bool {
    &&& cpu / 64 < words.len()
    &&& (words[(cpu / 64) as int] >> ((cpu % 64) as u64)) & 1 == 1
}

/// `words` extended with zero words to at least `n` words.
pub open spec fn grown(words: Seq<u64>, n: nat) -> Seq<u64> {
    if n <= words.len() {
        words
    } else {
        words + Seq::new((n - words.len()) as nat, |_i: int| 0u64)
    }
}

/// Setting bit `b` of a word leaves the other bits as they were.
proof fn lemma_set_bit(x: u64, b: u64, c: u64)
    requires
        b < 64,
        c < 64,
    ensures
        ((x | (1u64 << b)) >> c) & 1 == 1 <==> ((x >> c) & 1 == 1 || c == b),
{
    assert(((x | (1u64 << b)) >> c) & 1 == 1 <==> ((x >> c) & 1 == 1 || c == b))
        by (bit_vector)
        requires
            b < 64,
            c < 64,
    ;
}

/// Clearing bit `b` of a word leaves the other bits as they were.
proof fn lemma_clear_bit(x: u64, b: u64, c: u64)
    requires
        b < 64,
        c < 64,
    ensures
        ((x & !(1u64 << b)) >> c) & 1 == 1 <==> ((x >> c) & 1 == 1 && c != b),
{
    assert(((x & !(1u64 << b)) >> c) & 1 == 1 <==> ((x >> c) & 1 == 1 && c != b))
        by (bit_vector)
        requires
            b < 64,
            c < 64,
    ;
}

/// No bit of a zero word is set.
proof fn lemma_zero_word(c: u64)
    requires
        c < 64,
    ensures
        (0u64 >> c) & 1 != 1,
{
    assert((0u64 >> c) & 1 != 1) by (bit_vector)
        requires
            c < 64,
    ;
}

/// `words` with bit `cpu` set, grown first with zero words until word `cpu / 64`
/// exists.
pub open spec fn with_bit(words: Seq<u64>, cpu: nat) -> Seq<u64> {
    let g = grown(words, cpu / 64 + 1);
    g.update((cpu / 64) as int, g[(cpu / 64) as int] | (1u64 << ((cpu % 64) as u64)))
}

/// `words` with bit `cpu` clear; `words` itself where word `cpu / 64` is beyond
/// the end.
pub open spec fn without_bit(words: Seq<u64>, cpu: nat) -> Seq<u64> {
    if cpu / 64 < words.len() {
        words.update(
            (cpu / 64) as int,
            words[(cpu / 64) as int] & !(1u64 << ((cpu % 64) as u64)),
        )
    } else {
        words
    }
}

/// Setting a bit adds that bit and keeps the others.
proof fn lemma_with_bit(words: Seq<u64>, cpu: nat)
    ensures
        forall|j: nat| #[trigger] bit_in(with_bit(words, cpu), j) <==> (bit_in(words, j) || j == cpu),
{
    let g = grown(words, cpu / 64 + 1);
    assert forall|j: nat| #[trigger] bit_in(with_bit(words, cpu), j) <==> (bit_in(words, j) || j == cpu) by {
        let w = j / 64;
        let c = (j % 64) as u64;
        if w < g.len() {
            if w == cpu / 64 {
                lemma_set_bit(g[w as int], (cpu % 64) as u64, c);
            }
            if w >= words.len() {
                lemma_zero_word(c);
            }
        }
    }
}

/// Clearing a bit removes that bit and keeps the others.
proof fn lemma_without_bit(words: Seq<u64>, cpu: nat)
    ensures
        forall|j: nat| #[trigger] bit_in(without_bit(words, cpu), j) <==> (bit_in(words, j) && j != cpu),
{
    assert forall|j: nat| #[trigger] bit_in(without_bit(words, cpu), j) <==> (bit_in(words, j) && j != cpu) by {
        if j / 64 == cpu / 64 && cpu / 64 < words.len() {
            lemma_clear_bit(words[(cpu / 64) as int], (cpu % 64) as u64, (j % 64) as u64);
        }
    }
}

/// An unsigned or signed integer of at most 64 bits, usable as a literal CPU mask:
/// bit `i` of the integer stands for CPU `i`.
pub trait ScalarMask: Sized {
    /// The integer's bits, zero-extended to a word.
    spec fn spec_word(&self) -> u64;

    /// The integer's bits, zero-extended to a word.
    fn word(&self) -> (r: u64)
        ensures
            r == self.spec_word(),
    ;

    /// Width of the integer in bytes.
    spec fn spec_byte_width() -> nat;

    /// Width of the integer in bytes.
    fn byte_width() -> (r: usize)
        ensures
            r == Self::spec_byte_width(),
            1 <= r <= 8,
    ;
}

impl ScalarMask for u8 {
    open spec fn spec_word(&self) -> u64 {
        *self as u64
    }

    fn word(&self) -> (r: u64) {
        *self as u64
    }

    open spec fn spec_byte_width() -> nat {
        1
    }

    fn byte_width() -> (r: usize) {
        1
    }
}

impl ScalarMask for u16 {
    open spec fn spec_word(&self) -> u64 {
        *self as u64
    }

    fn word(&self) -> (r: u64) {
        *self as u64
    }

    open spec fn spec_byte_width() -> nat {
        2
    }

    fn byte_width() -> (r: usize) {
        2
    }
}

impl ScalarMask for u32 {
    open spec fn spec_word(&self) -> u64 {
        *self as u64
    }

    fn word(&self) -> (r: u64) {
        *self as u64
    }

    open spec fn spec_byte_width() -> nat {
        4
    }

    fn byte_width() -> (r: usize) {
        4
    }
}

impl ScalarMask for u64 {
    open spec fn spec_word(&self) -> u64 {
        *self
    }

    fn word(&self) -> (r: u64) {
        *self
    }

    open spec fn spec_byte_width() -> nat {
        8
    }

    fn byte_width() -> (r: usize) {
        8
    }
}

impl ScalarMask for i8 {
    open spec fn spec_word(&self) -> u64 {
        (*self as u8) as u64
    }

    fn word(&self) -> (r: u64) {
        (*self as u8) as u64
    }

    open spec fn spec_byte_width() -> nat {
        1
    }

    fn byte_width() -> (r: usize) {
        1
    }
}

impl ScalarMask for i16 {
    open spec fn spec_word(&self) -> u64 {
        (*self as u16) as u64
    }

    fn word(&self) -> (r: u64) {
        (*self as u16) as u64
    }

    open spec fn spec_byte_width() -> nat {
        2
    }

    fn byte_width() -> (r: usize) {
        2
    }
}

impl ScalarMask for i32 {
    open spec fn spec_word(&self) -> u64 {
        (*self as u32) as u64
    }

    fn word(&self) -> (r: u64) {
        (*self as u32) as u64
    }

    open spec fn spec_byte_width() -> nat {
        4
    }

    fn byte_width() -> (r: usize) {
        4
    }
}

impl ScalarMask for i64 {
    open spec fn spec_word(&self) -> u64 {
        *self as u64
    }

    fn word(&self) -> (r: u64) {
        *self as u64
    }

    open spec fn spec_byte_width() -> nat {
        8
    }

    fn byte_width() -> (r: usize) {
        8
    }
}

/// The words of the set built from `mask`: room for as many CPUs as the integer
/// has bits, which is one word, holding the integer's bits.
pub open spec fn mask_words<T: ScalarMask>(mask: T) -> Seq<u64> {
    seq![mask.spec_word()]
}

/// The mask as one 64-bit integer: `Err` where it is longer than 8 bytes, which
/// no such integer can hold without losing CPUs.
pub open spec fn u64_of(words: Seq<u64>) -> Result<u64, ()> {
    if 8 * words.len() > 8 {
        Err(())
    } else {
        Ok(words[0])
    }
}

/// A set of CPUs, bit `i` standing for CPU `i`, held in 64-bit words.
/// The equivalent of the `CPU_*` macros of `sched.h`.
pub struct CpuSet {
    mask: Vec<u64>,
}

impl View for CpuSet {
    type V = Seq<u64>;

    closed spec fn view(&self) -> Seq<u64> {
        self.mask@
    }
}

impl CpuSet {
    /// At least one word, and few enough that the byte length fits in a `usize`.
    pub closed spec fn wf(&self) -> bool {
        1 <= self.mask@.len() <= usize::MAX / 8
    }

    /// Whether CPU `cpu` is in the set.
    pub open spec fn has(&self, cpu: nat) -> bool {
        bit_in(self@, cpu)
    }

    /// Creates a set with room for `num_cpus` CPUs, none of them set.
    /// Equivalent of `CPU_ALLOC`.
    pub fn new(num_cpus: usize) -> (r: CpuSet)
        ensures
            r.wf(),
            r@ == zero_words(num_cpus as nat),
    {
        let elements: usize = if num_cpus == 0 {
            1
        } else {
            num_cpus / WORD_BITS + if num_cpus % WORD_BITS == 0 { 0 } else { 1 }
        };
        let mask = vec![0u64; elements];
        proof {
            assert(mask@ =~= zero_words(num_cpus as nat));
        }
        CpuSet { mask }
    }

    /// Creates a set from an integer mask, bit `i` of `mask` standing for CPU `i`,
    /// with room for as many CPUs as `mask` has bits.
    pub fn from_mask<T: ScalarMask>(mask: T) -> (r: CpuSet)
        ensures
            r.wf(),
            r@ == mask_words(mask),
    {
        let mut cpuset = Self::new(8 * T::byte_width());
        cpuset.mask.set(0, mask.word());
        proof {
            assert(cpuset.mask@ =~= mask_words(mask));
        }
        cpuset
    }

    /// Creates a set with room for CPUs `0..=cpu` that holds CPU `cpu` alone.
    pub fn single(cpu: usize) -> (r: CpuSet)
        ensures
            r.wf(),
            r@ == with_bit(zero_words(cpu as nat), cpu as nat),
            r@.len() == cpu / 64 + 1,
            forall|j: nat| #[trigger] r.has(j) <==> j == cpu,
    {
        let mut cpuset = Self::new(cpu);
        proof {
            assert forall|j: nat| !#[trigger] cpuset.has(j) by {
                if j / 64 < cpuset@.len() {
                    lemma_zero_word((j % 64) as u64);
                }
            }
        }
        cpuset.set(cpu);
        cpuset
    }

    /// The set as a `u64`, bit `i` for CPU `i`; `Err` where the mask is longer
    /// than a `u64`.
    pub fn as_u64(&self) -> (r: Result<u64, ()>)
        requires
            self.wf(),
        ensures
            r == u64_of(self@),
    {
        if self.len() > 8 {
            Err(())
        } else {
            Ok(self.mask[0])
        }
    }

    /// The words of the mask, word `k` holding CPUs `64 * k .. 64 * k + 64`; their
    /// address and byte length are what the kernel's affinity calls receive.
    pub fn as_words(&self) -> (r: &[u64])
        ensures
            r@ == self@,
    {
        self.mask.as_slice()
    }

    /// Gives up the set for its words.
    pub fn into_words(self) -> (r: Vec<u64>)
        ensures
            r@ == self@,
    {
        self.mask
    }

    /// A set over the given words; `None` where there are none, or so many that
    /// their byte length does not fit in a `usize`.
    pub fn from_words(words: Vec<u64>) -> (r: Option<CpuSet>)
        ensures
            r is Some <==> 1 <= words@.len() <= usize::MAX / 8,
            r matches Some(s) ==> s.wf() && s@ == words@,
    {
        if words.len() == 0 || words.len() > usize::MAX / 8 {
            None
        } else {
            Some(CpuSet { mask: words })
        }
    }

    /// Number of bytes in the mask; the same as `CPU_ALLOC_SIZE`.
    pub fn len(&self) -> (r: usize)
        requires
            self.wf(),
        ensures
            r == 8 * self@.len(),
    {
        (WORD_BITS / 8) * self.mask.len()
    }

    /// Adds CPU `cpu` to the set, first appending zero words until the word that
    /// holds it exists. Equivalent of `CPU_SET`.
    pub fn set(&mut self, cpu: usize)
        requires
            old(self).wf(),
        ensures
            final(self).wf(),
            final(self)@ == with_bit(old(self)@, cpu as nat),
            final(self)@.len() == if cpu / 64 < old(self)@.len() {
                old(self)@.len()
            } else {
                (cpu / 64 + 1) as nat
            },
            forall|j: nat| #[trigger] final(self).has(j) <==> (old(self).has(j) || j == cpu),
    {
        let elem = cpu / WORD_BITS;
        let bit = cpu % WORD_BITS;
        let ghost start = self.mask@;
        while elem >= self.mask.len()
            invariant
                elem == cpu / 64,
                start.len() <= self.mask@.len(),
                self.mask@.len() <= elem + 1 || self.mask@.len() == start.len(),
                self.mask@ == grown(start, self.mask@.len() as nat),
                1 <= self.mask@.len(),
            decreases elem + 1 - self.mask@.len(),
        {
            self.mask.push(0);
            proof {
                assert(self.mask@ =~= grown(start, self.mask@.len() as nat));
            }
        }
        assert(self.mask@ =~= grown(start, (cpu / 64 + 1) as nat));
        self.mask.set(elem, self.mask[elem] | (1u64 << (bit as u64)));
        proof {
            assert(self.mask@ =~= with_bit(start, cpu as nat));
            lemma_with_bit(start, cpu as nat);
        }
    }

    /// Removes CPU `cpu` from the set; does nothing where `cpu` is beyond its room.
    /// Clearing a CPU that is not in the set leaves the set as it is.
    /// Equivalent of `CPU_CLR`.
    pub fn clear(&mut self, cpu: usize)
        requires
            old(self).wf(),
        ensures
            final(self).wf(),
            final(self)@ == without_bit(old(self)@, cpu as nat),
            forall|j: nat| #[trigger] final(self).has(j) <==> (old(self).has(j) && j != cpu),
    {
        let elem = cpu / WORD_BITS;
        let bit = cpu % WORD_BITS;
        let ghost start = self.mask@;
        if elem < self.mask.len() {
            self.mask.set(elem, self.mask[elem] & !(1u64 << (bit as u64)));
        }
        proof {
            assert(self.mask@ =~= without_bit(start, cpu as nat));
            lemma_without_bit(start, cpu as nat);
        }
    }

    /// Whether CPU `cpu` is in the set; false for a CPU beyond its room.
    /// Equivalent of `CPU_ISSET`.
    pub fn is_set(&self, cpu: usize) -> (r: bool)
        requires
            self.wf(),
        ensures
            r == self.has(cpu as nat),
    {
        let elem = cpu / WORD_BITS;
        let bit = cpu % WORD_BITS;
        if elem >= self.mask.len() {
            false
        } else {
            (self.mask[elem] >> (bit as u64)) & 1 == 1
        }
    }
}

/// `words` after setting bits `0`, `1`, ..., `k - 1` in turn.
pub open spec fn with_first_bits(words: Seq<u64>, k: nat) -> Seq<u64>
    decreases k,
{
    if k == 0 {
        words
    } else {
        with_bit(with_first_bits(words, (k - 1) as nat), (k - 1) as nat)
    }
}

/// A set made for `num_cpus` CPUs is at least one word (8 bytes) long, and has the
/// fewest words that hold `max(num_cpus, 1)` bits: its byte length is
/// `ceil(max(num_cpus, 1) / 64) * 8`.
pub proof fn lemma_new_byte_length(num_cpus: nat)
    ensures
        8 * zero_words(num_cpus).len() >= 8,
        ({
            let bits = if num_cpus == 0 { 1 } else { num_cpus };
            let k = zero_words(num_cpus).len();
            64 * (k - 1) < bits <= 64 * k
        }),
{
}

/// An integer mask read back as a `u64` gives its own bits, zero-extended.
pub proof fn lemma_mask_round_trip<T: ScalarMask>(mask: T)
    ensures
        u64_of(mask_words(mask)) == Ok::<u64, ()>(mask.spec_word()),
{
}

/// A `u64` mask read back as a `u64` gives the same value.
pub proof fn lemma_u64_round_trip(mask: u64)
    ensures
        u64_of(mask_words(mask)) == Ok::<u64, ()>(mask),
{
}

/// A mask longer than 8 bytes cannot be read as a `u64`.
pub proof fn lemma_too_long_for_u64(words: Seq<u64>)
    requires
        8 * words.len() > 8,
    ensures
        u64_of(words) is Err,
{
}

/// A set made for more than 64 CPUs is longer than 8 bytes, and so cannot be
/// read as a `u64`.
pub proof fn lemma_sized_over_64_is_too_long(num_cpus: nat)
    requires
        num_cpus > 64,
    ensures
        8 * zero_words(num_cpus).len() > 8,
        u64_of(zero_words(num_cpus)) is Err,
{
}

/// Right after setting CPU `cpu` the set holds it, and the mask has grown to
/// reach the word that holds it, also where that word is one past the old end.
pub proof fn lemma_set_then_is_set(words: Seq<u64>, cpu: nat)
    ensures
        bit_in(with_bit(words, cpu), cpu),
        with_bit(words, cpu).len() == if cpu / 64 < words.len() {
            words.len()
        } else {
            cpu / 64 + 1
        },
{
    lemma_with_bit(words, cpu);
}

/// A CPU beyond the room of a mask is not in it, and clearing it changes
/// nothing: the mask does not grow.
pub proof fn lemma_beyond_room(words: Seq<u64>, cpu: nat)
    requires
        cpu / 64 >= words.len(),
    ensures
        !bit_in(words, cpu),
        without_bit(words, cpu) == words,
{
}

/// Setting CPUs `0..k` in turn on a new set gives a set that holds exactly
/// those CPUs.
pub proof fn lemma_set_prefix(num_cpus: nat, k: nat)
    ensures
        forall|j: nat| #[trigger] bit_in(with_first_bits(zero_words(num_cpus), k), j) <==> j < k,
    decreases k,
{
    let w = zero_words(num_cpus);
    if k == 0 {
        assert forall|j: nat| !#[trigger] bit_in(w, j) by {
            if j / 64 < w.len() {
                lemma_zero_word((j % 64) as u64);
            }
        }
    } else {
        lemma_set_prefix(num_cpus, (k - 1) as nat);
        lemma_with_bit(with_first_bits(w, (k - 1) as nat), (k - 1) as nat);
    }
}

} // verus!
