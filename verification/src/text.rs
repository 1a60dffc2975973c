//! Text as sequences of characters: equality, equality without regard to the case of
//! ASCII letters, the lexicographic order, and the decoding of UTF-16 buffers.

use vstd::prelude::*;

verus! {

/// The characters of a text that may be missing.
pub open spec fn option_text(text: Option<String>) -> Option<Seq<char>> {
    match text {
        Some(text) => Some(text@),
        None => None,
    }
}

/// The characters of a text that stands in place of an error.
pub open spec fn result_text<E>(text: Result<String, E>) -> Result<Seq<char>, E> {
    match text {
        Ok(text) => Ok(text@),
        Err(error) => Err(error),
    }
}

/// A character with an ASCII capital letter replaced by its small letter.
pub open spec fn spec_fold_case(c: char) -> char {
    if 'A' <= c && c <= 'Z' {
        ((c as u32) + 32) as char
    } else {
        c
    }
}

/// Whether two texts are equal once the case of ASCII letters is set aside.
pub open spec fn spec_same_ignoring_case(a: Seq<char>, b: Seq<char>) -> bool {
    &&& a.len() == b.len()
    &&& forall|i: int| 0 <= i < a.len() ==> spec_fold_case(#[trigger] a[i]) == spec_fold_case(b[i])
}

/// The strict lexicographic order of texts by the code points of their characters: at
/// the first place where two texts differ the smaller character decides, and a proper
/// prefix comes before the longer text.
pub open spec fn text_lt(a: Seq<char>, b: Seq<char>) -> bool
    decreases a.len(),
{
    if b.len() == 0 {
        false
    } else if a.len() == 0 {
        true
    } else if a[0] != b[0] {
        (a[0] as int) < (b[0] as int)
    } else {
        text_lt(a.drop_first(), b.drop_first())
    }
}

/// The lexicographic order of texts, equal texts included.
pub open spec fn text_le(a: Seq<char>, b: Seq<char>) -> bool {
    a == b || text_lt(a, b)
}

/// Two texts that agree before place `k`, where the first ends or holds the smaller
/// character, are in order.
pub proof fn lemma_text_lt_at(a: Seq<char>, b: Seq<char>, k: int)
    requires
        0 <= k <= a.len(),
        k < b.len(),
        forall|i: int| 0 <= i < k ==> a[i] == b[i],
        k == a.len() || (a[k] as int) < (b[k] as int),
    ensures
        text_lt(a, b),
    decreases k,
{
    if k > 0 {
        let a1 = a.drop_first();
        let b1 = b.drop_first();
        assert forall|i: int| 0 <= i < k - 1 implies a1[i] == b1[i] by {
            assert(a1[i] == a[i + 1]);
            assert(b1[i] == b[i + 1]);
        }
        if k < a.len() {
            assert(a1[k - 1] == a[k]);
            assert(b1[k - 1] == b[k]);
        }
        lemma_text_lt_at(a1, b1, k - 1);
    }
}

/// No text comes before itself.
pub proof fn lemma_text_lt_irreflexive(a: Seq<char>)
    ensures
        !text_lt(a, a),
    decreases a.len(),
{
    if a.len() > 0 {
        lemma_text_lt_irreflexive(a.drop_first());
    }
}

/// The order is transitive.
pub proof fn lemma_text_lt_transitive(a: Seq<char>, b: Seq<char>, c: Seq<char>)
    requires
        text_lt(a, b),
        text_lt(b, c),
    ensures
        text_lt(a, c),
    decreases a.len(),
{
    if a.len() > 0 && a[0] == b[0] && b[0] == c[0] {
        lemma_text_lt_transitive(a.drop_first(), b.drop_first(), c.drop_first());
    }
}

/// Of two different texts one comes before the other.
pub proof fn lemma_text_lt_total(a: Seq<char>, b: Seq<char>)
    ensures
        a == b || text_lt(a, b) || text_lt(b, a),
        !(text_lt(a, b) && text_lt(b, a)),
    decreases a.len(),
{
    if a.len() > 0 && b.len() > 0 && a[0] == b[0] {
        lemma_text_lt_total(a.drop_first(), b.drop_first());
        if a.drop_first() == b.drop_first() {
            assert(a =~= seq![a[0]] + a.drop_first());
            assert(b =~= seq![b[0]] + b.drop_first());
        }
    } else if a.len() == 0 && b.len() == 0 {
        assert(a =~= b);
    }
}

/// The characters of a text.
pub fn chars_of(s: &str) -> (v: Vec<char>)
    ensures
        v@ == s@,
{
    let mut v: Vec<char> = Vec::new();
    for c in it: s.chars()
        invariant
            v.len() == it.index(),
            it.seq() == s@,
            forall|j: int| 0 <= j < v.len() ==> v@[j] == it.seq()[j],
    {
        v.push(c);
    }
    assert(v@ =~= s@);
    v
}

/// A character with an ASCII capital letter replaced by its small letter.
pub fn fold_case(c: char) -> (r: char)
    ensures
        r == spec_fold_case(c),
{
    if 'A' <= c && c <= 'Z' {
        let code: u32 = c as u32 + 32;
        code as u8 as char
    } else {
        c
    }
}

/// Whether two texts are the same.
pub fn same_text(a: &str, b: &str) -> (r: bool)
    ensures
        r == (a@ == b@),
{
    let x = chars_of(a);
    let y = chars_of(b);
    if x.len() != y.len() {
        return false;
    }
    let mut i: usize = 0;
    while i < x.len()
        invariant
            i <= x.len(),
            x.len() == y.len(),
            x@ == a@,
            y@ == b@,
            forall|j: int| 0 <= j < i ==> x@[j] == y@[j],
        decreases x.len() - i,
    {
        if x[i] != y[i] {
            return false;
        }
        i += 1;
    }
    assert(x@ =~= y@);
    true
}

/// Whether two texts are the same once the case of ASCII letters is set aside.
pub fn same_ignoring_case(a: &str, b: &str) -> (r: bool)
    ensures
        r == spec_same_ignoring_case(a@, b@),
{
    let x = chars_of(a);
    let y = chars_of(b);
    if x.len() != y.len() {
        return false;
    }
    let mut i: usize = 0;
    while i < x.len()
        invariant
            i <= x.len(),
            x.len() == y.len(),
            x@ == a@,
            y@ == b@,
            forall|j: int| 0 <= j < i ==> spec_fold_case(#[trigger] x@[j]) == spec_fold_case(y@[j]),
        decreases x.len() - i,
    {
        if fold_case(x[i]) != fold_case(y[i]) {
            return false;
        }
        i += 1;
    }
    true
}

/// Whether the first text comes before the second in the lexicographic order.
pub fn text_before(a: &str, b: &str) -> (r: bool)
    ensures
        r == text_lt(a@, b@),
{
    let x = chars_of(a);
    let y = chars_of(b);
    let mut i: usize = 0;
    while i < x.len() && i < y.len()
        invariant
            i <= x.len(),
            i <= y.len(),
            x@ == a@,
            y@ == b@,
            forall|j: int| 0 <= j < i ==> x@[j] == y@[j],
        decreases x.len() - i,
    {
        if x[i] != y[i] {
            let before = x[i] < y[i];
            proof {
                if before {
                    lemma_text_lt_at(x@, y@, i as int);
                } else {
                    lemma_text_lt_at(y@, x@, i as int);
                    lemma_text_lt_total(x@, y@);
                }
            }
            return before;
        }
        i += 1;
    }
    proof {
        if i < y.len() {
            lemma_text_lt_at(x@, y@, i as int);
        } else if i < x.len() {
            lemma_text_lt_at(y@, x@, i as int);
            lemma_text_lt_total(x@, y@);
        } else {
            assert(x@ =~= y@);
            lemma_text_lt_irreflexive(x@);
        }
    }
    i < y.len()
}

/// The characters of each of a list of texts.
pub open spec fn texts_of(texts: Seq<String>) -> Seq<Seq<char>> {
    texts.map_values(|text: String| text@)
}

/// Whether a list of texts stands in lexicographic order, equal texts side by side.
pub open spec fn spec_texts_sorted(texts: Seq<Seq<char>>) -> bool {
    forall|i: int, j: int| 0 <= i < j < texts.len() ==> text_le(#[trigger] texts[i], #[trigger] texts[j])
}

/// A list with one more element holds that element once more and nothing else.
pub proof fn lemma_insert_to_multiset<A>(list: Seq<A>, place: int, element: A)
    requires
        0 <= place <= list.len(),
    ensures
        list.insert(place, element).to_multiset() == list.to_multiset().insert(element),
{
    let longer = list.insert(place, element);
    assert(longer.remove(place) =~= list);
    vstd::seq_lib::to_multiset_remove(longer, place);
    longer.to_multiset_ensures();
    assert(longer.contains(element)) by {
        assert(longer[place] == element);
    }
    assert(longer.to_multiset() =~= list.to_multiset().insert(element));
}

/// The texts in lexicographic order: the same texts, each as often as before.
pub fn sort_texts(texts: Vec<String>) -> (r: Vec<String>)
    ensures
        spec_texts_sorted(texts_of(r@)),
        texts_of(r@).to_multiset() == texts_of(texts@).to_multiset(),
{
    let mut out: Vec<String> = Vec::new();
    assert(texts_of(texts@.take(0)) =~= texts_of(out@));
    for text in it: texts
        invariant
            it.seq() == texts@,
            spec_texts_sorted(texts_of(out@)),
            texts_of(out@).to_multiset() == texts_of(texts@.take(it.index())).to_multiset(),
    {
        let ghost before = texts_of(out@);
        let ghost taken = texts_of(texts@.take(it.index()));
        let mut place: usize = 0;
        while place < out.len() && !text_before(text.as_str(), out[place].as_str())
            invariant
                place <= out@.len(),
                forall|j: int| 0 <= j < place ==> text_le(#[trigger] texts_of(out@)[j], text@),
            decreases out@.len() - place,
        {
            proof {
                lemma_text_lt_total(text@, out@[place as int]@);
            }
            place += 1;
        }
        out.insert(place, text);
        proof {
            let after = texts_of(out@);
            assert(after =~= before.insert(place as int, text@));
            lemma_insert_to_multiset(before, place as int, text@);
            assert(texts_of(texts@.take(it.index() + 1)) =~= taken.push(text@));
            vstd::seq_lib::to_multiset_build(taken, text@);
            assert forall|i: int, j: int| 0 <= i < j < after.len() implies text_le(
                #[trigger] after[i],
                #[trigger] after[j],
            ) by {
                if j < place {
                    assert(after[i] == before[i] && after[j] == before[j]);
                } else if j == place {
                    assert(after[i] == before[i]);
                } else if i == place {
                    assert(after[j] == before[j - 1]);
                    assert(text_lt(text@, before[place as int]));
                    if j - 1 > place {
                        assert(text_le(before[place as int], before[j - 1]));
                        if before[place as int] != before[j - 1] {
                            lemma_text_lt_transitive(text@, before[place as int], before[j - 1]);
                        }
                    }
                } else if i < place {
                    assert(after[i] == before[i] && after[j] == before[j - 1]);
                } else {
                    assert(after[i] == before[i - 1] && after[j] == before[j - 1]);
                }
            }
        }
    }
    assert(texts@.take(texts@.len() as int) =~= texts@);
    out
}

/// The text that a sequence of UTF-16 code units encodes, or nothing where the units
/// are not well-formed UTF-16.
pub uninterp spec fn utf16_text(units: Seq<u16>) -> Option<Seq<char>>;

/// `String::from_utf16` of the standard library: decodes UTF-16 code units into a text
/// and fails on units that are not well-formed. The contract gives the outcome the name
/// `utf16_text` and claims no more than that the call computes it.
#[verifier::external_body]
fn decode_utf16(units: &Vec<u16>) -> (r: Option<String>)
    ensures
        option_text(r) == utf16_text(units@),
{
    String::from_utf16(units.as_slice()).ok()
}

/// The text in the first `len` code units of a buffer: nothing where the buffer is
/// shorter than that or the units are not well-formed.
pub open spec fn spec_text_from_buffer(buffer: Seq<u16>, len: int) -> Option<Seq<char>> {
    if 0 <= len <= buffer.len() {
        utf16_text(buffer.take(len))
    } else {
        None
    }
}

/// The number of code units that a buffer needs for a text of `len` units and the
/// terminator behind it, where the machine can address that many.
pub fn buffer_units(len: u32) -> (r: Option<usize>)
    ensures
        r == if len + 1 <= usize::MAX {
            Some((len + 1) as usize)
        } else {
            None
        },
{
    let len: usize = len as usize;
    if len < usize::MAX {
        Some(len + 1)
    } else {
        None
    }
}

/// The text in the first `len` code units of a buffer that the engine has filled.
pub fn text_from_buffer(buffer: &Vec<u16>, len: usize) -> (r: Option<String>)
    ensures
        option_text(r) == spec_text_from_buffer(buffer@, len as int),
{
    if len > buffer.len() {
        return None;
    }
    let prefix = vstd::slice::slice_to_vec(
        vstd::slice::slice_subrange(buffer.as_slice(), 0, len),
    );
    decode_utf16(&prefix)
}

} // verus!
