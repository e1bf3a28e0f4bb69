//! Escaping of mnemonic markers in menu-item text.
//!
//! The host toolkit's menu renderer treats an ampersand as a mnemonic marker
//! (an accelerator prefix), so a literal `&` in row content must be doubled
//! before the text is handed to menu-item measurement or drawing.

use vstd::prelude::*;
use vstd::string::StrSliceExecFns;
use vstd::string::StringExecFns;

verus! {

/// The text with every ampersand doubled: `&` becomes `&&`, every other
/// character is kept as it is. This is what a menu renderer needs in order to
/// display the original text literally.
pub open spec fn escaped_amp(s: Seq<char>) -> Seq<char>
    decreases s.len(),
{
    if s.len() == 0 {
        Seq::empty()
    } else if s[0] == '&' {
        seq!['&', '&'] + escaped_amp(s.drop_first())
    } else {
        seq![s[0]] + escaped_amp(s.drop_first())
    }
}

/// Escaping distributes over concatenation; this is what lets the escape be
/// computed left to right.
pub proof fn lemma_escaped_amp_append(a: Seq<char>, b: Seq<char>)
    ensures
        escaped_amp(a + b) == escaped_amp(a) + escaped_amp(b),
    decreases a.len(),
{
    if a.len() == 0 {
        assert(a + b =~= b);
        assert(escaped_amp(a) + escaped_amp(b) =~= escaped_amp(b));
    } else {
        lemma_escaped_amp_append(a.drop_first(), b);
        assert((a + b).drop_first() =~= a.drop_first() + b);
        if a[0] == '&' {
            assert(escaped_amp(a + b) =~= escaped_amp(a) + escaped_amp(b));
        } else {
            assert(escaped_amp(a + b) =~= escaped_amp(a) + escaped_amp(b));
        }
    }
}

/// Text without ampersands is left unchanged by the escape.
pub proof fn lemma_escaped_amp_identity(s: Seq<char>)
    requires
        forall|i: int| 0 <= i < s.len() ==> s[i] != '&',
    ensures
        escaped_amp(s) == s,
    decreases s.len(),
{
    if s.len() > 0 {
        lemma_escaped_amp_identity(s.drop_first());
        assert(escaped_amp(s) =~= s);
    }
}

/// Returns the text with every ampersand doubled, ready for the host
/// toolkit's menu-item renderer.
pub fn escape_ampersands(s: &str) -> (out: String)
    ensures
        out@ == escaped_amp(s@),
{
    let mut out = String::new();
    let n: usize = s.unicode_len();
    let mut i: usize = 0;
    while i < n
        invariant
            i <= n,
            n == s@.len(),
            out@ == escaped_amp(s@.take(i as int)),
        decreases n - i,
    {
        let c = s.get_char(i);
        proof {
            let single = seq![s@[i as int]];
            assert(s@.take(i + 1) =~= s@.take(i as int) + single);
            lemma_escaped_amp_append(s@.take(i as int), single);
            assert(single.drop_first() =~= Seq::<char>::empty());
            assert(escaped_amp(single.drop_first()) == Seq::<char>::empty());
        }
        if c == '&' {
            proof {
                reveal_strlit("&&");
                assert(escaped_amp(seq![s@[i as int]]) =~= "&&"@);
            }
            out.append("&&");
        } else {
            let piece = s.substring_char(i, i + 1);
            proof {
                assert(piece@ =~= seq![s@[i as int]]);
                assert(escaped_amp(seq![s@[i as int]]) =~= seq![s@[i as int]]);
            }
            out.append(piece);
        }
        i += 1;
    }
    proof {
        assert(s@.take(n as int) =~= s@);
    }
    out
}

} // verus!
