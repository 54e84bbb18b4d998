//! Rules of the binding generator that do not depend on the generator
//! itself: how a declaration of the native header is renamed, how a header
//! is rewritten so that the generator can read it, and which
//! graphics-backend selections are refused before any build work starts.

use vstd::prelude::*;
use vstd::string::*;

verus! {

/// `s` begins with `p`.
pub open spec fn starts_with<T>(s: Seq<T>, p: Seq<T>) -> bool {
    p.len() <= s.len() && s.subrange(0, p.len() as int) == p
}

/// `s` ends with `p`.
pub open spec fn ends_with<T>(s: Seq<T>, p: Seq<T>) -> bool {
    p.len() <= s.len() && s.subrange(s.len() - p.len(), s.len() as int) == p
}

/// `s` with every leading repetition of `p` removed. An empty `p` removes
/// nothing.
pub open spec fn without_leading(s: Seq<char>, p: Seq<char>) -> Seq<char>
    decreases s.len(),
{
    if p.len() > 0 && starts_with(s, p) {
        without_leading(s.skip(p.len() as int), p)
    } else {
        s
    }
}

/// `s` with every trailing repetition of `p` removed. An empty `p` removes
/// nothing.
pub open spec fn without_trailing(s: Seq<char>, p: Seq<char>) -> Seq<char>
    decreases s.len(),
{
    if p.len() > 0 && ends_with(s, p) {
        without_trailing(s.take(s.len() - p.len()), p)
    } else {
        s
    }
}

/// The name under which a declaration called `declared` is exposed, or
/// `None` where it keeps its name. A name with the vendor prefix `Vk` loses
/// that prefix; any other name that begins with `PFN_vk` and ends with the
/// extension suffix `KHR` loses that suffix.
pub open spec fn renamed(declared: Seq<char>) -> Option<Seq<char>> {
    if starts_with(declared, "Vk"@) {
        Some(without_leading(declared, "Vk"@))
    } else if starts_with(declared, "PFN_vk"@) && ends_with(declared, "KHR"@) {
        Some(without_trailing(declared, "KHR"@))
    } else {
        None
    }
}

/// Whether `pattern` stands in `s`, a string of `n` characters, at
/// character position `at`.
fn matches_at(s: &str, n: usize, at: usize, pattern: &str) -> (found: bool)
    requires
        n == s@.len(),
        at + pattern@.len() <= n,
    ensures
        found == (s@.subrange(at as int, at + pattern@.len()) == pattern@),
{
    let m: usize = pattern.unicode_len();
    let mut k: usize = 0;
    while k < m
        invariant
            k <= m,
            m == pattern@.len(),
            n == s@.len(),
            at + m <= n,
            forall|j: int| 0 <= j < k ==> s@[at + j] == pattern@[j],
        decreases m - k,
    {
        if s.get_char(at + k) != pattern.get_char(k) {
            assert(s@.subrange(at as int, at + m)[k as int] != pattern@[k as int]);
            return false;
        }
        k += 1;
    }
    assert(s@.subrange(at as int, at + m) =~= pattern@);
    true
}

/// Whether `s` begins with `prefix`.
pub fn has_prefix(s: &str, prefix: &str) -> (found: bool)
    ensures
        found == starts_with(s@, prefix@),
{
    let n: usize = s.unicode_len();
    prefix.unicode_len() <= n && matches_at(s, n, 0, prefix)
}

/// Whether `s` ends with `suffix`.
pub fn has_suffix(s: &str, suffix: &str) -> (found: bool)
    ensures
        found == ends_with(s@, suffix@),
{
    let n: usize = s.unicode_len();
    let m: usize = suffix.unicode_len();
    m <= n && matches_at(s, n, n - m, suffix)
}

/// Removes every leading repetition of `prefix` from `s`.
pub fn strip_leading<'a>(s: &'a str, prefix: &str) -> (rest: &'a str)
    ensures
        rest@ == without_leading(s@, prefix@),
{
    let n: usize = s.unicode_len();
    let m: usize = prefix.unicode_len();
    if m == 0 {
        return s;
    }
    let mut i: usize = 0;
    assert(s@.skip(0) =~= s@);
    while m <= n - i && matches_at(s, n, i, prefix)
        invariant
            i <= n,
            n == s@.len(),
            m == prefix@.len(),
            m > 0,
            without_leading(s@, prefix@) == without_leading(s@.skip(i as int), prefix@),
        decreases n - i,
    {
        proof {
            let tail = s@.skip(i as int);
            assert(tail.subrange(0, m as int) =~= s@.subrange(i as int, i + m));
            assert(tail.skip(m as int) =~= s@.skip(i + m));
        }
        i += m;
    }
    proof {
        let tail = s@.skip(i as int);
        if m <= n - i {
            assert(tail.subrange(0, m as int) =~= s@.subrange(i as int, i + m));
        }
        assert(tail =~= s@.subrange(i as int, n as int));
    }
    s.substring_char(i, n)
}

/// Removes every trailing repetition of `suffix` from `s`.
pub fn strip_trailing<'a>(s: &'a str, suffix: &str) -> (rest: &'a str)
    ensures
        rest@ == without_trailing(s@, suffix@),
{
    let n: usize = s.unicode_len();
    let m: usize = suffix.unicode_len();
    if m == 0 {
        return s;
    }
    let mut j: usize = n;
    assert(s@.take(n as int) =~= s@);
    while m <= j && matches_at(s, n, j - m, suffix)
        invariant
            j <= n,
            n == s@.len(),
            m == suffix@.len(),
            m > 0,
            without_trailing(s@, suffix@) == without_trailing(s@.take(j as int), suffix@),
        decreases j,
    {
        proof {
            let head = s@.take(j as int);
            assert(head.subrange(j - m, j as int) =~= s@.subrange(j - m, j as int));
            assert(head.take(j - m) =~= s@.take(j - m));
        }
        j -= m;
    }
    proof {
        let head = s@.take(j as int);
        if m <= j {
            assert(head.subrange(j - m, j as int) =~= s@.subrange(j - m, j as int));
        }
        assert(head =~= s@.subrange(0, j as int));
    }
    s.substring_char(0, j)
}

/// The name under which the declaration `declared` is exposed, or `None`
/// where it keeps its name.
pub fn item_name(declared: &str) -> (name: Option<String>)
    ensures
        name is Some <==> renamed(declared@) is Some,
        name matches Some(n) ==> renamed(declared@) == Some(n@),
{
    if has_prefix(declared, "Vk") {
        Some(strip_leading(declared, "Vk").to_owned())
    } else if has_prefix(declared, "PFN_vk") && has_suffix(declared, "KHR") {
        Some(strip_trailing(declared, "KHR").to_owned())
    } else {
        None
    }
}

/// What is left once every leading repetition is removed no longer begins
/// with the pattern, so removing again changes nothing.
pub proof fn lemma_without_leading_is_clean(s: Seq<char>, p: Seq<char>)
    ensures
        p.len() > 0 ==> !starts_with(without_leading(s, p), p),
        without_leading(without_leading(s, p), p) == without_leading(s, p),
    decreases s.len(),
{
    if p.len() > 0 && starts_with(s, p) {
        lemma_without_leading_is_clean(s.skip(p.len() as int), p);
    }
}

/// What is left once every trailing repetition is removed no longer ends
/// with the pattern, so removing again changes nothing.
pub proof fn lemma_without_trailing_is_clean(s: Seq<char>, p: Seq<char>)
    ensures
        p.len() > 0 ==> !ends_with(without_trailing(s, p), p),
        without_trailing(without_trailing(s, p), p) == without_trailing(s, p),
    decreases s.len(),
{
    if p.len() > 0 && ends_with(s, p) {
        lemma_without_trailing_is_clean(s.take(s.len() - p.len()), p);
    }
}

/// Removing leading repetitions leaves an end piece of the name: the name
/// is some characters followed by what is left.
pub proof fn lemma_without_leading_is_tail(s: Seq<char>, p: Seq<char>)
    ensures
        without_leading(s, p).len() <= s.len(),
        without_leading(s, p) == s.skip(s.len() - without_leading(s, p).len()),
    decreases s.len(),
{
    if p.len() > 0 && starts_with(s, p) {
        let t = s.skip(p.len() as int);
        lemma_without_leading_is_tail(t, p);
        let r = without_leading(t, p);
        assert(t.skip(t.len() - r.len()) =~= s.skip(s.len() - r.len()));
    } else {
        assert(s.skip(0) =~= s);
    }
}

/// Removing trailing repetitions leaves a front piece of the name.
pub proof fn lemma_without_trailing_is_head(s: Seq<char>, p: Seq<char>)
    ensures
        without_trailing(s, p).len() <= s.len(),
        without_trailing(s, p) == s.take(without_trailing(s, p).len() as int),
    decreases s.len(),
{
    if p.len() > 0 && ends_with(s, p) {
        let t = s.take(s.len() - p.len());
        lemma_without_trailing_is_head(t, p);
        let r = without_trailing(t, p);
        assert(t.take(r.len() as int) =~= s.take(r.len() as int));
    } else {
        assert(s.take(s.len() as int) =~= s);
    }
}

/// `text` with every occurrence of `from` replaced by `to`. Occurrences
/// are found from the left and do not overlap. An empty `from` occurs
/// nowhere.
pub open spec fn replaced(text: Seq<u8>, from: Seq<u8>, to: Seq<u8>) -> Seq<u8>
    decreases text.len(),
{
    if from.len() == 0 || text.len() == 0 {
        text
    } else if starts_with(text, from) {
        to + replaced(text.skip(from.len() as int), from, to)
    } else {
        seq![text[0]] + replaced(text.skip(1), from, to)
    }
}

/// Whether `from` occurs somewhere in `text`.
pub open spec fn occurs_in(from: Seq<u8>, text: Seq<u8>) -> bool {
    exists|i: int| 0 <= i <= text.len() && #[trigger] starts_with(text.skip(i), from)
}

/// Whether `pattern` stands in `s` at position `at`.
fn bytes_match_at(s: &[u8], at: usize, pattern: &[u8]) -> (found: bool)
    requires
        at + pattern@.len() <= s@.len(),
    ensures
        found == (s@.subrange(at as int, at + pattern@.len()) == pattern@),
{
    let n: usize = s.len();
    let m: usize = pattern.len();
    let mut k: usize = 0;
    while k < m
        invariant
            k <= m,
            m == pattern@.len(),
            n == s@.len(),
            at + m <= n,
            forall|j: int| 0 <= j < k ==> s@[at + j] == pattern@[j],
        decreases m - k,
    {
        if s[at + k] != pattern[k] {
            assert(s@.subrange(at as int, at + m)[k as int] != pattern@[k as int]);
            return false;
        }
        k += 1;
    }
    assert(s@.subrange(at as int, at + m) =~= pattern@);
    true
}

/// Appends `bytes` to `out`.
fn push_all(out: &mut Vec<u8>, bytes: &[u8])
    ensures
        final(out)@ == old(out)@ + bytes@,
{
    let n: usize = bytes.len();
    let mut k: usize = 0;
    while k < n
        invariant
            k <= n,
            n == bytes@.len(),
            out@ == old(out)@ + bytes@.take(k as int),
        decreases n - k,
    {
        out.push(bytes[k]);
        k += 1;
        assert(out@ =~= old(out)@ + bytes@.take(k as int));
    }
    assert(bytes@.take(n as int) =~= bytes@);
}

/// Replaces every occurrence of `from` in `text` by `to`.
pub fn replace_all(text: &[u8], from: &[u8], to: &[u8]) -> (out: Vec<u8>)
    ensures
        out@ == replaced(text@, from@, to@),
{
    let n: usize = text.len();
    let m: usize = from.len();
    let mut out: Vec<u8> = Vec::new();
    if m == 0 {
        push_all(&mut out, text);
        assert(out@ =~= text@);
        return out;
    }
    let mut i: usize = 0;
    assert(text@.skip(0) =~= text@);
    while i < n
        invariant
            i <= n,
            n == text@.len(),
            m == from@.len(),
            m > 0,
            out@ + replaced(text@.skip(i as int), from@, to@) == replaced(text@, from@, to@),
        decreases n - i,
    {
        let ghost tail = text@.skip(i as int);
        let ghost before = out@;
        if m <= n - i && bytes_match_at(text, i, from) {
            push_all(&mut out, to);
            proof {
                assert(tail.subrange(0, m as int) =~= text@.subrange(i as int, i + m));
                assert(tail.skip(m as int) =~= text@.skip(i + m));
                let rest = replaced(text@.skip(i + m), from@, to@);
                assert((before + to@) + rest =~= before + (to@ + rest));
            }
            i += m;
        } else {
            out.push(text[i]);
            proof {
                if m <= n - i {
                    assert(tail.subrange(0, m as int) =~= text@.subrange(i as int, i + m));
                }
                assert(tail.skip(1) =~= text@.skip(i + 1));
                let rest = replaced(text@.skip(i + 1), from@, to@);
                assert(before.push(text@[i as int]) + rest =~= before + (seq![tail[0]] + rest));
            }
            i += 1;
        }
    }
    assert(out@ + replaced(text@.skip(n as int), from@, to@) =~= out@);
    out
}

/// Name of the macro in the runtime header that the generator cannot read.
pub const OPAQUE_HANDLE_MACRO: &'static str = "RPS_IMPL_OPAQUE_HANDLE";

/// What stands in place of the macro's name while the generator runs: the
/// start of a line comment.
pub const LINE_COMMENT: &'static str = "//";

/// The content of a runtime header as the generator is to see it: every
/// use of the macro it cannot read is turned into a line comment.
pub fn neutralize_opaque_handles(header: &[u8]) -> (readable: Vec<u8>)
    ensures
        readable@ == replaced(
            header@,
            OPAQUE_HANDLE_MACRO.spec_bytes(),
            LINE_COMMENT.spec_bytes(),
        ),
{
    replace_all(header, OPAQUE_HANDLE_MACRO.as_bytes(), LINE_COMMENT.as_bytes())
}

/// A text in which the pattern does not occur is left as it is.
pub proof fn lemma_replaced_without_occurrence(text: Seq<u8>, from: Seq<u8>, to: Seq<u8>)
    requires
        !occurs_in(from, text),
    ensures
        replaced(text, from, to) == text,
    decreases text.len(),
{
    if from.len() > 0 && text.len() > 0 {
        assert(text.skip(0) =~= text);
        assert(!starts_with(text.skip(0), from));
        let rest = text.skip(1);
        assert forall|i: int| 0 <= i <= rest.len() implies !#[trigger] starts_with(
            rest.skip(i),
            from,
        ) by {
            assert(rest.skip(i) =~= text.skip(i + 1));
            assert(!starts_with(text.skip(i + 1), from));
        }
        lemma_replaced_without_occurrence(rest, from, to);
        assert(seq![text[0]] + rest =~= text);
    }
}

/// A graphics backend the native library can be built for.
#[derive(Clone, Copy, Debug, PartialEq, Eq, Hash, Structural)]
pub enum GraphicsBackend {
    Vulkan,
    D3D11,
    D3D12,
}

/// The backend that makes a selection unbuildable, if there is one: D3D11
/// where it is selected, else D3D12 where it is selected.
pub open spec fn refused_backend(d3d11: bool, d3d12: bool) -> Option<GraphicsBackend> {
    if d3d11 {
        Some(GraphicsBackend::D3D11)
    } else if d3d12 {
        Some(GraphicsBackend::D3D12)
    } else {
        None
    }
}

/// Checks a selection of optional backends before any build work starts.
/// The error names the backend to report as unsupported.
pub fn check_backend_selection(d3d11: bool, d3d12: bool) -> (res: Result<(), GraphicsBackend>)
    ensures
        res is Ok <==> !d3d11 && !d3d12,
        res matches Err(b) ==> refused_backend(d3d11, d3d12) == Some(b),
{
    if d3d11 {
        Err(GraphicsBackend::D3D11)
    } else if d3d12 {
        Err(GraphicsBackend::D3D12)
    } else {
        Ok(())
    }
}

} // verus!
