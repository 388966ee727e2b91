//! Hint labels and the deterministic label generator.
//!
//! Labels are assigned by a tiered bijective numbering over the layout's
//! alphabet: the first `base` indices get the single symbols in alphabet
//! order, and every later index falls into the tier of some length `L >= 2`,
//! which holds `base^L` labels, written as `L`-digit numerals with the most
//! significant symbol first.

use crate::hints::layout::KeyboardLayout;
use crate::hints::layout::spec_standard_chars;
use vstd::arithmetic::div_mod::lemma_fundamental_div_mod;
use vstd::arithmetic::div_mod::lemma_mod_division_less_than_divisor;
use vstd::arithmetic::power::lemma_pow_adds;
use vstd::arithmetic::power::lemma_pow_positive;
use vstd::arithmetic::power::pow;
use vstd::prelude::*;
use vstd::string::StrSliceExecFns;

verus! {

/// Relies on String::push: appends the given character to the end of the
/// string.
pub assume_specification[ String::push ](s: &mut String, ch: char)
    ensures
        final(s)@ == old(s)@.push(ch),
;

/// `prefix` is a literal prefix of `s`.
pub open spec fn spec_is_prefix(prefix: Seq<char>, s: Seq<char>) -> bool {
    prefix.len() <= s.len() && s.subrange(0, prefix.len() as int) == prefix
}

/// A hint label (e.g. "a", "as", "asd").
#[derive(Debug, PartialEq, Eq, Hash)]
pub struct HintLabel {
    pub text: String,
}

impl View for HintLabel {
    type V = Seq<char>;

    open spec fn view(&self) -> Seq<char> {
        self.text@
    }
}

impl Clone for HintLabel {
    /// A label and its clone hold the same text.
    fn clone(&self) -> (r: Self)
        ensures
            r == *self,
    {
        HintLabel { text: self.text.clone() }
    }
}

impl HintLabel {
    pub fn new(text: String) -> (r: Self)
        ensures
            r@ == text@,
    {
        HintLabel { text }
    }

    /// Check if this hint matches the given input, i.e. whether the label
    /// starts with the input.
    pub fn matches(&self, input: &str) -> (r: bool)
        ensures
            r == spec_is_prefix(input@, self@),
    {
        let n = input.unicode_len();
        let m = self.text.as_str().unicode_len();
        if n > m {
            return false;
        }
        let mut i: usize = 0;
        while i < n
            invariant
                i <= n,
                n == input@.len(),
                m == self@.len(),
                n <= m,
                forall|j: int| 0 <= j < i ==> input@[j] == self@[j],
            decreases n - i,
        {
            if self.text.as_str().get_char(i) != input.get_char(i) {
                proof {
                    assert(self@.subrange(0, n as int)[i as int] == self@[i as int]);
                }
                return false;
            }
            i += 1;
        }
        proof {
            assert(self@.subrange(0, n as int) =~= input@);
        }
        true
    }

    /// Check if this hint is an exact match for the input.
    pub fn is_exact_match(&self, input: &str) -> (r: bool)
        ensures
            r == (self@ == input@),
    {
        let n = input.unicode_len();
        let m = self.text.as_str().unicode_len();
        if n != m {
            return false;
        }
        let r = self.matches(input);
        proof {
            assert(self@.subrange(0, n as int) =~= self@);
        }
        r
    }
}

/// Tier lookup for an index offset `o` past the single-symbol labels:
/// starting from tier `len`, walk tiers of `base^len` labels upward until
/// `o` falls inside the current tier; the result is the pair of the tier
/// length and the position inside that tier.
pub open spec fn spec_tier(base: nat, o: nat, len: nat) -> (nat, nat)
    decreases o,
    when base >= 1
    via spec_tier_decreases
{
    if o < pow(base as int, len) {
        (len, o)
    } else {
        spec_tier(base, (o - pow(base as int, len)) as nat, len + 1)
    }
}

#[via_fn]
proof fn spec_tier_decreases(base: nat, o: nat, len: nat) {
    lemma_pow_positive(base as int, len);
}

/// The `len`-digit numeral of `p` over the alphabet, most significant
/// symbol first.
pub open spec fn spec_numeral(alphabet: Seq<char>, p: nat, len: nat) -> Seq<char>
    recommends
        alphabet.len() >= 1,
    decreases len,
{
    if len == 0 {
        Seq::empty()
    } else {
        spec_numeral(alphabet, p / alphabet.len(), (len - 1) as nat).push(
            alphabet[(p % alphabet.len()) as int],
        )
    }
}

/// The label the tiered numbering assigns to `index`: one of the first
/// `base` indices maps to the single symbol at that alphabet position, and
/// every later index maps to the numeral of its position inside its tier.
pub open spec fn spec_label(alphabet: Seq<char>, index: nat) -> Seq<char>
    recommends
        alphabet.len() >= 1,
{
    let base = alphabet.len();
    if index < base {
        seq![alphabet[index as int]]
    } else {
        let lp = spec_tier(base, (index - base) as nat, 2);
        spec_numeral(alphabet, lp.1, lp.0)
    }
}

/// Hint generator that creates deterministic, shortest-first labels.
pub struct HintGenerator {
    layout: KeyboardLayout,
}

impl HintGenerator {
    /// The alphabet of the layout this generator was built with.
    pub closed spec fn alphabet(self) -> Seq<char> {
        self.layout.spec_chars()
    }

    /// Create a new hint generator with the given keyboard layout.
    pub fn new(layout: KeyboardLayout) -> (r: Self)
        ensures
            r.alphabet() == layout.spec_chars(),
    {
        HintGenerator { layout }
    }

    /// Generate hint labels for the given number of elements.
    ///
    /// The label at index `i` is `spec_label(alphabet, i)`: single symbols
    /// first, then two-symbol combinations, and so on. An empty alphabet
    /// yields no labels at all.
    pub fn generate(&self, count: usize) -> (hints: Vec<HintLabel>)
        ensures
            self.alphabet().len() == 0 ==> hints@.len() == 0,
            self.alphabet().len() >= 1 ==> hints@.len() == count,
            forall|i: int|
                0 <= i < hints@.len() ==> hints@[i]@ == spec_label(self.alphabet(), i as nat),
    {
        if count == 0 {
            return Vec::new();
        }
        let chars = self.layout.chars();
        if chars.len() == 0 {
            return Vec::new();
        }
        let base = chars.len();
        let mut hints: Vec<HintLabel> = Vec::new();
        let mut index: usize = 0;
        while index < count
            invariant
                base == chars@.len(),
                base >= 1,
                chars@ == self.alphabet(),
                index <= count,
                hints@.len() == index,
                forall|i: int|
                    0 <= i < index ==> hints@[i]@ == spec_label(self.alphabet(), i as nat),
            decreases count - index,
        {
            let label_text = self.index_to_hint(index, &chars, base);
            hints.push(HintLabel::new(label_text));
            index += 1;
        }
        hints
    }

    /// Convert an index to a hint string.
    ///
    /// The first `base` indices map to single symbols; every later index is
    /// written as the numeral of its position inside its tier.
    fn index_to_hint(&self, index: usize, chars: &Vec<char>, base: usize) -> (r: String)
        requires
            base == chars@.len(),
            base >= 1,
            index < usize::MAX,
        ensures
            r@ == spec_label(chars@, index as nat),
    {
        // Single character hints
        if index < base {
            let mut s = String::new();
            s.push(chars[index]);
            proof {
                assert(s@ =~= seq![chars@[index as int]]);
            }
            return s;
        }
        // Multi-character hints: find the tier (label length) and the
        // position inside it. The running tier capacity is grown with
        // checked multiplication; once it exceeds every index that can still
        // matter it is pinned to the largest value, which compares the same
        // way and can never overflow.
        let ghost offset: nat = (index - base) as nat;
        let mut rem: usize = index - base;
        let mut length: usize = 2;
        let mut cap: usize = match base.checked_mul(base) {
            Some(c) => c,
            None => usize::MAX,
        };
        proof {
            assert(pow(base as int, 2) == base * base) by {
                reveal_with_fuel(pow, 3);
            }
        }
        while cap <= rem
            invariant
                base >= 1,
                2 <= length,
                rem <= offset,
                offset <= usize::MAX - 1 - base,
                length <= 2 + (offset - rem),
                cap <= rem ==> cap == pow(base as int, length as nat),
                rem < cap ==> rem < pow(base as int, length as nat),
                spec_tier(base as nat, offset, 2) == spec_tier(
                    base as nat,
                    rem as nat,
                    length as nat,
                ),
            decreases rem,
        {
            proof {
                lemma_pow_positive(base as int, length as nat);
            }
            let ghost old_cap: int = cap as int;
            rem = rem - cap;
            length = length + 1;
            proof {
                assert(pow(base as int, length as nat) == old_cap * base) by {
                    lemma_pow_adds(base as int, (length - 1) as nat, 1nat);
                    reveal_with_fuel(pow, 2);
                }
                assert(spec_tier(base as nat, (rem + old_cap) as nat, (length - 1) as nat)
                    == spec_tier(base as nat, rem as nat, length as nat));
            }
            cap = match cap.checked_mul(base) {
                Some(c) => c,
                None => usize::MAX,
            };
        }
        proof {
            assert(spec_tier(base as nat, rem as nat, length as nat) == (
                length as nat,
                rem as nat,
            ));
            assert(spec_tier(base as nat, offset, 2) == (length as nat, rem as nat));
        }
        // Extract the digits, least significant first
        let ghost position: nat = rem as nat;
        let ghost tier_len: nat = length as nat;
        let mut digits_rev: Vec<char> = Vec::new();
        let mut pos: usize = rem;
        let mut k: usize = 0;
        while k < length
            invariant
                base >= 1,
                base == chars@.len(),
                k <= length,
                tier_len == length,
                digits_rev@.len() == k,
                spec_numeral(chars@, position, tier_len) == spec_numeral(
                    chars@,
                    pos as nat,
                    (length - k) as nat,
                ) + digits_rev@.reverse(),
            decreases length - k,
        {
            let ghost old_digits = digits_rev@;
            let ghost old_pos = pos as nat;
            let d = pos % base;
            digits_rev.push(chars[d]);
            pos = pos / base;
            k += 1;
            proof {
                let c = chars@[d as int];
                assert(spec_numeral(chars@, old_pos, (length - k + 1) as nat) == spec_numeral(
                    chars@,
                    pos as nat,
                    (length - k) as nat,
                ).push(c));
                assert(old_digits.push(c).reverse() =~= seq![c] + old_digits.reverse());
                assert(spec_numeral(chars@, pos as nat, (length - k) as nat).push(c)
                    + old_digits.reverse() =~= spec_numeral(chars@, pos as nat, (length - k) as nat)
                    + (seq![c] + old_digits.reverse()));
            }
        }
        proof {
            assert(spec_numeral(chars@, position, tier_len) =~= digits_rev@.reverse());
        }
        // Write the digits out most significant first
        let mut s = String::new();
        let mut j: usize = 0;
        while j < length
            invariant
                digits_rev@.len() == length,
                j <= length,
                s@ =~= digits_rev@.reverse().subrange(0, j as int),
            decreases length - j,
        {
            let ghost old_s = s@;
            s.push(digits_rev[length - 1 - j]);
            j += 1;
            proof {
                assert(digits_rev@.reverse()[j - 1] == digits_rev@[length - j]);
                assert(old_s.push(digits_rev@[length - j]) =~= digits_rev@.reverse().subrange(
                    0,
                    j as int,
                ));
            }
        }
        proof {
            assert(s@ =~= digits_rev@.reverse());
        }
        s
    }
}

/// Total number of labels in the tiers of lengths `len` up to but not
/// including `l`.
pub open spec fn spec_tier_total(base: nat, len: nat, l: nat) -> nat
    decreases l - len,
{
    if l <= len {
        0
    } else {
        (pow(base as int, len) + spec_tier_total(base, len + 1, l)) as nat
    }
}

/// Shape of a tier lookup: the tier length never falls below the starting
/// length, the position lies inside the tier, and the offset is recovered
/// exactly from the tier totals below plus the position.
pub proof fn lemma_tier_shape(base: nat, o: nat, len: nat)
    requires
        base >= 1,
    ensures
        spec_tier(base, o, len).0 >= len,
        spec_tier(base, o, len).1 < pow(base as int, spec_tier(base, o, len).0),
        o == spec_tier_total(base, len, spec_tier(base, o, len).0) + spec_tier(base, o, len).1,
    decreases o,
{
    lemma_pow_positive(base as int, len);
    if o < pow(base as int, len) {
        assert(spec_tier(base, o, len) == (len, o));
    } else {
        let rest = (o - pow(base as int, len)) as nat;
        lemma_tier_shape(base, rest, len + 1);
        let l = spec_tier(base, rest, len + 1).0;
        assert(spec_tier_total(base, len, l) == pow(base as int, len) + spec_tier_total(
            base,
            len + 1,
            l,
        ));
    }
}

/// A numeral of `len` digits has exactly `len` symbols.
pub proof fn lemma_numeral_len(alphabet: Seq<char>, p: nat, len: nat)
    requires
        alphabet.len() >= 1,
    ensures
        spec_numeral(alphabet, p, len).len() == len,
    decreases len,
{
    if len > 0 {
        lemma_numeral_len(alphabet, p / alphabet.len(), (len - 1) as nat);
    }
}

/// Two distinct positions inside one tier have distinct numerals, over an
/// alphabet of distinct symbols.
pub proof fn lemma_numeral_injective(alphabet: Seq<char>, p1: nat, p2: nat, len: nat)
    requires
        alphabet.len() >= 1,
        alphabet.no_duplicates(),
        p1 < pow(alphabet.len() as int, len),
        p2 < pow(alphabet.len() as int, len),
        p1 != p2,
    ensures
        spec_numeral(alphabet, p1, len) != spec_numeral(alphabet, p2, len),
    decreases len,
{
    let b = alphabet.len();
    if len == 0 {
        assert(pow(b as int, 0) == 1) by {
            reveal_with_fuel(pow, 1);
        }
        assert(false);
    } else {
        let n1 = spec_numeral(alphabet, p1, len);
        let n2 = spec_numeral(alphabet, p2, len);
        lemma_numeral_len(alphabet, p1, len);
        lemma_numeral_len(alphabet, p2, len);
        lemma_mod_division_less_than_divisor(p1 as int, b as int);
        lemma_mod_division_less_than_divisor(p2 as int, b as int);
        if p1 % b != p2 % b {
            assert(n1.last() == alphabet[(p1 % b) as int]);
            assert(n2.last() == alphabet[(p2 % b) as int]);
            assert(n1.last() != n2.last());
        } else {
            lemma_fundamental_div_mod(p1 as int, b as int);
            lemma_fundamental_div_mod(p2 as int, b as int);
            assert(p1 / b != p2 / b);
            assert(pow(b as int, len) == b * pow(b as int, (len - 1) as nat)) by {
                reveal_with_fuel(pow, 2);
            }
            lemma_pow_positive(b as int, (len - 1) as nat);
            assert(p1 / b < pow(b as int, (len - 1) as nat)) by (nonlinear_arith)
                requires
                    b >= 1,
                    p1 == b * (p1 / b) + p1 % b,
                    p1 % b >= 0,
                    p1 < b * pow(b as int, (len - 1) as nat),
            ;
            assert(p2 / b < pow(b as int, (len - 1) as nat)) by (nonlinear_arith)
                requires
                    b >= 1,
                    p2 == b * (p2 / b) + p2 % b,
                    p2 % b >= 0,
                    p2 < b * pow(b as int, (len - 1) as nat),
            ;
            lemma_numeral_injective(alphabet, p1 / b, p2 / b, (len - 1) as nat);
            let m1 = spec_numeral(alphabet, p1 / b, (len - 1) as nat);
            let m2 = spec_numeral(alphabet, p2 / b, (len - 1) as nat);
            lemma_numeral_len(alphabet, p1 / b, (len - 1) as nat);
            lemma_numeral_len(alphabet, p2 / b, (len - 1) as nat);
            if n1 == n2 {
                assert forall|i: int| 0 <= i < m1.len() implies m1[i] == m2[i] by {
                    assert(n1[i] == m1[i]);
                    assert(n2[i] == m2[i]);
                }
                assert(m1 =~= m2);
                assert(false);
            }
        }
    }
}

/// Collision freedom of the numbering: over an alphabet of at least one
/// symbol, all distinct, no two indices ever receive the same label. A
/// batch of any size therefore consists of pairwise distinct labels.
pub proof fn lemma_labels_distinct(alphabet: Seq<char>, i: nat, j: nat)
    requires
        alphabet.len() >= 1,
        alphabet.no_duplicates(),
        i != j,
    ensures
        spec_label(alphabet, i) != spec_label(alphabet, j),
{
    let b = alphabet.len();
    if i < b && j < b {
        assert(spec_label(alphabet, i)[0] == alphabet[i as int]);
        assert(spec_label(alphabet, j)[0] == alphabet[j as int]);
    } else if i < b && j >= b {
        lemma_tier_shape(b, (j - b) as nat, 2);
        let lp = spec_tier(b, (j - b) as nat, 2);
        lemma_numeral_len(alphabet, lp.1, lp.0);
        assert(spec_label(alphabet, i).len() == 1);
        assert(spec_label(alphabet, j).len() >= 2);
    } else if i >= b && j < b {
        lemma_tier_shape(b, (i - b) as nat, 2);
        let lp = spec_tier(b, (i - b) as nat, 2);
        lemma_numeral_len(alphabet, lp.1, lp.0);
        assert(spec_label(alphabet, j).len() == 1);
        assert(spec_label(alphabet, i).len() >= 2);
    } else {
        lemma_tier_shape(b, (i - b) as nat, 2);
        lemma_tier_shape(b, (j - b) as nat, 2);
        let lp1 = spec_tier(b, (i - b) as nat, 2);
        let lp2 = spec_tier(b, (j - b) as nat, 2);
        lemma_numeral_len(alphabet, lp1.1, lp1.0);
        lemma_numeral_len(alphabet, lp2.1, lp2.0);
        if lp1.0 == lp2.0 {
            assert(lp1.1 != lp2.1);
            lemma_numeral_injective(alphabet, lp1.1, lp2.1, lp1.0);
        }
    }
}

/// A generated batch is collision-free: a sequence of labels that follows
/// the generator's numbering, over an alphabet of at least one symbol with
/// no repeats, holds no label twice.
pub proof fn lemma_batch_distinct(alphabet: Seq<char>, labels: Seq<Seq<char>>)
    requires
        alphabet.len() >= 1,
        alphabet.no_duplicates(),
        forall|i: int| 0 <= i < labels.len() ==> labels[i] == spec_label(alphabet, i as nat),
    ensures
        labels.no_duplicates(),
{
    assert forall|i: int, j: int|
        0 <= i < labels.len() && 0 <= j < labels.len() && i != j implies labels[i]
        != labels[j] by {
        lemma_labels_distinct(alphabet, i as nat, j as nat);
    }
}

/// Stable prefix: a longer batch of labels begins with exactly the shorter
/// batch, because the label at an index depends only on the index and the
/// alphabet, never on the batch size.
pub proof fn lemma_stable_prefix(
    alphabet: Seq<char>,
    shorter: Seq<Seq<char>>,
    longer: Seq<Seq<char>>,
)
    requires
        shorter.len() <= longer.len(),
        forall|i: int| 0 <= i < shorter.len() ==> shorter[i] == spec_label(alphabet, i as nat),
        forall|i: int| 0 <= i < longer.len() ==> longer[i] == spec_label(alphabet, i as nat),
    ensures
        shorter == longer.subrange(0, shorter.len() as int),
{
    assert(shorter =~= longer.subrange(0, shorter.len() as int));
}

impl Default for HintGenerator {
    /// The default generator uses the standard home-row layout.
    fn default() -> (r: Self)
        ensures
            r.alphabet() == spec_standard_chars(),
    {
        HintGenerator::new(KeyboardLayout::default())
    }
}

} // verus!
