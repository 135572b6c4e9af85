//! Verified text utilities: exact character-wise string equality, used by
//! location matching, and the response normalizer that rewrites the
//! two-character sequence backslash-`n` into an actual line break.

use vstd::prelude::*;
use vstd::string::StrSliceExecFns;

verus! {

/// Exact equality of two strings, character by character. No trimming,
/// case folding or fuzzy matching.
pub fn str_eq(a: &str, b: &str) -> (r: bool)
    ensures
        r == (a@ == b@),
{
    let a_len = a.unicode_len();
    let b_len = b.unicode_len();
    if a_len != b_len {
        return false;
    }
    let mut i: usize = 0;
    while i < a_len
        invariant
            a_len == a@.len(),
            a@.len() == b@.len(),
            i <= a_len,
            forall|k: int| 0 <= k < i ==> a@[k] == b@[k],
        decreases a_len - i,
    {
        if a.get_char(i) != b.get_char(i) {
            return false;
        }
        i = i + 1;
    }
    proof {
        assert(a@ =~= b@);
    }
    true
}

/// What normalization means: scanning from the front, each occurrence of
/// backslash followed by `n` becomes one line-break character; every other
/// character is kept as it stands.
pub open spec fn norm_spec(s: Seq<char>) -> Seq<char>
    decreases s.len(),
{
    if s.len() == 0 {
        Seq::empty()
    } else if s.len() >= 2 && s[0] == '\\' && s[1] == 'n' {
        seq!['\n'] + norm_spec(s.skip(2))
    } else {
        seq![s[0]] + norm_spec(s.skip(1))
    }
}

/// A character sequence with no occurrence of the escape sequence left.
pub open spec fn escape_free(s: Seq<char>) -> bool {
    forall|i: int| 0 <= i && i + 1 < s.len() ==> !((#[trigger] s[i]) == '\\' && s[i + 1] == 'n')
}

/// Relies on String::push, which appends the given character to the end
/// of the string.
#[verifier::external_body]
fn push_char(s: &mut String, c: char)
    ensures
        final(s)@ == old(s)@.push(c),
{
    s.push(c);
}

/// Rewrite every occurrence of the two-character sequence backslash-`n`
/// into an actual line break. Pure and total; on text with no such
/// sequence it is a no-op.
pub fn normalize(text: &str) -> (r: String)
    ensures
        r@ == norm_spec(text@),
{
    let n = text.unicode_len();
    let mut out = String::new();
    let mut i: usize = 0;
    proof {
        assert(text@.skip(0) =~= text@);
        assert(out@ + norm_spec(text@) =~= norm_spec(text@));
    }
    while i < n
        invariant
            n == text@.len(),
            i <= n,
            norm_spec(text@) == out@ + norm_spec(text@.skip(i as int)),
        decreases n - i,
    {
        let c = text.get_char(i);
        if i + 1 < n && c == '\\' && text.get_char(i + 1) == 'n' {
            proof {
                let rest = text@.skip(i as int);
                assert(rest[0] == '\\' && rest[1] == 'n');
                assert(rest.skip(2) =~= text@.skip(i as int + 2));
                assert(norm_spec(text@) =~= out@.push('\n') + norm_spec(
                    text@.skip(i as int + 2),
                ));
            }
            push_char(&mut out, '\n');
            i = i + 2;
        } else {
            proof {
                let rest = text@.skip(i as int);
                assert(rest[0] == c);
                assert(rest.skip(1) =~= text@.skip(i as int + 1));
                assert(norm_spec(text@) =~= out@.push(c) + norm_spec(text@.skip(i as int + 1)));
            }
            push_char(&mut out, c);
            i = i + 1;
        }
    }
    proof {
        assert(text@.skip(n as int) =~= Seq::<char>::empty());
        assert(out@ + norm_spec(text@.skip(n as int)) =~= out@);
    }
    out
}

/// The first character the normalizer emits is either a line break or the
/// first character of the input.
proof fn lemma_norm_head(s: Seq<char>)
    requires
        s.len() > 0,
    ensures
        norm_spec(s).len() > 0,
        norm_spec(s)[0] == '\n' || norm_spec(s)[0] == s[0],
{
}

/// Every occurrence of the escape sequence is rewritten, not just the
/// first: no backslash-`n` pair survives normalization.
pub proof fn lemma_normalize_escape_free(s: Seq<char>)
    ensures
        escape_free(norm_spec(s)),
    decreases s.len(),
{
    if s.len() == 0 {
    } else if s.len() >= 2 && s[0] == '\\' && s[1] == 'n' {
        lemma_normalize_escape_free(s.skip(2));
        let t = norm_spec(s.skip(2));
        assert forall|i: int| 0 <= i && i + 1 < norm_spec(s).len() implies !((#[trigger] norm_spec(
            s,
        )[i]) == '\\' && norm_spec(s)[i + 1] == 'n') by {
            if i > 0 {
                assert(norm_spec(s)[i] == t[i - 1]);
                assert(norm_spec(s)[i + 1] == t[i]);
            }
        }
    } else {
        lemma_normalize_escape_free(s.skip(1));
        let t = norm_spec(s.skip(1));
        assert forall|i: int| 0 <= i && i + 1 < norm_spec(s).len() implies !((#[trigger] norm_spec(
            s,
        )[i]) == '\\' && norm_spec(s)[i + 1] == 'n') by {
            if i == 0 {
                assert(norm_spec(s)[0] == s[0]);
                assert(s.skip(1).len() > 0);
                lemma_norm_head(s.skip(1));
                assert(norm_spec(s)[1] == t[0]);
                if s[0] == '\\' {
                    assert(s.len() >= 2);
                    assert(s.skip(1)[0] == s[1]);
                    assert(s[1] != 'n');
                    assert(t[0] != 'n');
                }
            } else {
                assert(norm_spec(s)[i] == t[i - 1]);
                assert(norm_spec(s)[i + 1] == t[i]);
            }
        }
    }
}

/// On text that already holds no escape sequence, normalization is a
/// no-op.
pub proof fn lemma_normalize_escape_free_identity(s: Seq<char>)
    requires
        escape_free(s),
    ensures
        norm_spec(s) == s,
    decreases s.len(),
{
    if s.len() == 0 {
        assert(norm_spec(s) =~= s);
    } else {
        assert(!(s.len() >= 2 && s[0] == '\\' && s[1] == 'n'));
        assert forall|i: int| 0 <= i && i + 1 < s.skip(1).len() implies !((#[trigger] s.skip(
            1,
        )[i]) == '\\' && s.skip(1)[i + 1] == 'n') by {
            assert(s[i + 1] == s.skip(1)[i]);
            assert(s[i + 2] == s.skip(1)[i + 1]);
        }
        lemma_normalize_escape_free_identity(s.skip(1));
        assert(norm_spec(s) =~= s);
    }
}

/// Normalization is idempotent: a second pass changes nothing.
pub proof fn lemma_normalize_idempotent(s: Seq<char>)
    ensures
        norm_spec(norm_spec(s)) == norm_spec(s),
{
    lemma_normalize_escape_free(s);
    lemma_normalize_escape_free_identity(norm_spec(s));
}

} // verus!
