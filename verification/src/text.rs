//! Text builders shared by the session and the sink: decimal rendering of
//! HTTP statuses, the canonical file content, and output file paths.

use vstd::prelude::*;
use vstd::string::StringExecFns;
use crate::normalize::CanonicalOutput;

verus! {

/// The character for one decimal digit.
pub open spec fn digit_char(d: nat) -> char {
    if d == 0 {
        '0'
    } else if d == 1 {
        '1'
    } else if d == 2 {
        '2'
    } else if d == 3 {
        '3'
    } else if d == 4 {
        '4'
    } else if d == 5 {
        '5'
    } else if d == 6 {
        '6'
    } else if d == 7 {
        '7'
    } else if d == 8 {
        '8'
    } else {
        '9'
    }
}

/// The usual decimal rendering of a number, most significant digit first,
/// no sign and no leading zero (except for zero itself).
pub open spec fn decimal_of(n: nat) -> Seq<char>
    decreases n,
{
    if n < 10 {
        seq![digit_char(n)]
    } else {
        decimal_of(n / 10) + seq![digit_char(n % 10)]
    }
}

/// The one-character string for a decimal digit.
fn digit_str(d: u64) -> (r: &'static str)
    requires
        d < 10,
    ensures
        r@ == seq![digit_char(d as nat)],
{
    proof {
        reveal_strlit("0");
        reveal_strlit("1");
        reveal_strlit("2");
        reveal_strlit("3");
        reveal_strlit("4");
        reveal_strlit("5");
        reveal_strlit("6");
        reveal_strlit("7");
        reveal_strlit("8");
        reveal_strlit("9");
    }
    if d == 0 {
        "0"
    } else if d == 1 {
        "1"
    } else if d == 2 {
        "2"
    } else if d == 3 {
        "3"
    } else if d == 4 {
        "4"
    } else if d == 5 {
        "5"
    } else if d == 6 {
        "6"
    } else if d == 7 {
        "7"
    } else if d == 8 {
        "8"
    } else {
        "9"
    }
}

/// Render a number in decimal.
pub fn decimal_string(n: u64) -> (r: String)
    ensures
        r@ == decimal_of(n as nat),
    decreases n,
{
    if n < 10 {
        String::from_str(digit_str(n))
    } else {
        let high = decimal_string(n / 10);
        high.concat(digit_str(n % 10))
    }
}

/// The file content for the line-sequence case: every line followed by a
/// line terminator.
pub open spec fn joined_lines(ls: Seq<Seq<char>>) -> Seq<char>
    decreases ls.len(),
{
    if ls.len() == 0 {
        Seq::empty()
    } else {
        joined_lines(ls.drop_last()) + ls.last() + seq!['\n']
    }
}

/// The exact file content produced for a canonical output: the joined
/// lines for the array case, the string itself for the verbatim case.
pub open spec fn rendered_of(out: CanonicalOutput) -> Seq<char> {
    match out {
        CanonicalOutput::Lines(ls) => joined_lines(ls.deep_view()),
        CanonicalOutput::Verbatim(s) => s@,
    }
}

/// Render the canonical output to the text that the sink writes.
pub fn render_canonical(out: &CanonicalOutput) -> (r: String)
    ensures
        r@ == rendered_of(*out),
{
    match out {
        CanonicalOutput::Lines(ls) => {
            let ghost all = ls.deep_view();
            let mut text = String::new();
            let mut i: usize = 0;
            proof {
                reveal_strlit("\n");
            }
            while i < ls.len()
                invariant
                    i <= ls.len(),
                    all == ls.deep_view(),
                    all.len() == ls.len(),
                    text@ == joined_lines(all.take(i as int)),
                    "\n"@ == seq!['\n'],
                decreases ls.len() - i,
            {
                proof {
                    assert(all.take(i + 1).drop_last() =~= all.take(i as int));
                    assert(all.take(i + 1).last() == all[i as int]);
                }
                text.append(ls[i].as_str());
                text.append("\n");
                proof {
                    assert(text@ =~= joined_lines(all.take(i + 1)));
                }
                i = i + 1;
            }
            proof {
                assert(all.take(ls.len() as int) =~= all);
            }
            text
        },
        CanonicalOutput::Verbatim(s) => String::from_str(s.as_str()),
    }
}

/// The name of a device's output file: `<hostname>.txt`.
pub fn output_file_name(hostname: &str) -> (r: String)
    ensures
        r@ == hostname@ + ".txt"@,
{
    String::from_str(hostname).concat(".txt")
}

/// The path of a device's output file inside the output directory:
/// `<directory>/<hostname>.txt`.
pub fn output_path(directory: &str, hostname: &str) -> (r: String)
    ensures
        r@ == directory@ + "/"@ + hostname@ + ".txt"@,
{
    String::from_str(directory).concat("/").concat(hostname).concat(".txt")
}

/// How many line terminators a text contains.
pub open spec fn newline_count(s: Seq<char>) -> nat
    decreases s.len(),
{
    if s.len() == 0 {
        0
    } else {
        newline_count(s.drop_last()) + if s.last() == '\n' {
            1nat
        } else {
            0nat
        }
    }
}

/// Line terminators count up over concatenation.
pub proof fn lemma_newline_count_concat(a: Seq<char>, b: Seq<char>)
    ensures
        newline_count(a + b) == newline_count(a) + newline_count(b),
    decreases b.len(),
{
    if b.len() == 0 {
        assert(a + b =~= a);
    } else {
        lemma_newline_count_concat(a, b.drop_last());
        assert((a + b).drop_last() =~= a + b.drop_last());
        assert((a + b).last() == b.last());
    }
}

/// Law: a canonical output of `k` lines, none of which contains a line
/// terminator of its own, renders to a file text with exactly `k` line
/// terminators — one line per entry, in the given order.
pub proof fn lemma_lines_render_line_count(ls: Seq<Seq<char>>)
    requires
        forall|i: int| 0 <= i < ls.len() ==> newline_count(#[trigger] ls[i]) == 0,
    ensures
        newline_count(joined_lines(ls)) == ls.len(),
    decreases ls.len(),
{
    if ls.len() == 0 {
    } else {
        lemma_lines_render_line_count(ls.drop_last());
        lemma_newline_count_concat(joined_lines(ls.drop_last()), ls.last());
        lemma_newline_count_concat(joined_lines(ls.drop_last()) + ls.last(), seq!['\n']);
        assert(newline_count(seq!['\n']) == 1) by {
            let s = seq!['\n'];
            assert(s.drop_last() =~= Seq::<char>::empty());
            assert(newline_count(Seq::<char>::empty()) == 0);
            assert(s.last() == '\n');
            assert(newline_count(s) == newline_count(s.drop_last()) + 1);
        }
        assert(ls.last() == ls[ls.len() - 1]);
    }
}

/// A text without line terminators has none at any position.
pub proof fn lemma_no_newline_at(s: Seq<char>, i: int)
    requires
        newline_count(s) == 0,
        0 <= i < s.len(),
    ensures
        s[i] != '\n',
    decreases s.len(),
{
    if i < s.len() - 1 {
        lemma_no_newline_at(s.drop_last(), i);
        assert(s.drop_last()[i] == s[i]);
    }
}

/// A nonempty joined text ends with a line terminator.
pub proof fn lemma_joined_lines_ends_with_newline(ls: Seq<Seq<char>>)
    requires
        ls.len() > 0,
    ensures
        joined_lines(ls).len() > 0,
        joined_lines(ls).last() == '\n',
{
}

/// Law: the rendered file determines the lines. Two line sequences, none
/// of whose lines contains a line terminator of its own, that render to
/// the same file text are the same sequence — so a file rendered from `k`
/// lines holds exactly those `k` lines, in that order.
pub proof fn lemma_joined_lines_injective(ls1: Seq<Seq<char>>, ls2: Seq<Seq<char>>)
    requires
        forall|i: int| 0 <= i < ls1.len() ==> newline_count(#[trigger] ls1[i]) == 0,
        forall|i: int| 0 <= i < ls2.len() ==> newline_count(#[trigger] ls2[i]) == 0,
        joined_lines(ls1) == joined_lines(ls2),
    ensures
        ls1 =~~= ls2,
    decreases ls1.len() + ls2.len(),
{
    let s = joined_lines(ls1);
    if ls1.len() == 0 && ls2.len() == 0 {
    } else if ls1.len() == 0 {
        lemma_joined_lines_ends_with_newline(ls2);
        assert(false);
    } else if ls2.len() == 0 {
        lemma_joined_lines_ends_with_newline(ls1);
        assert(false);
    } else {
        let a1 = joined_lines(ls1.drop_last());
        let l1 = ls1.last();
        let a2 = joined_lines(ls2.drop_last());
        let l2 = ls2.last();
        assert(s == a1 + l1 + seq!['\n']);
        assert(s == a2 + l2 + seq!['\n']);
        assert(s.len() == a1.len() + l1.len() + 1);
        assert(s.len() == a2.len() + l2.len() + 1);
        // the two last lines have the same length: were one shorter, the
        // terminator that precedes it in its own reading would fall inside
        // the other's last line, which holds no terminator
        assert(l1.len() == l2.len()) by {
            if l1.len() < l2.len() {
                let j = s.len() - 2 - l1.len();
                assert(a1.len() > a2.len() >= 0);
                assert(ls1.drop_last().len() > 0);
                lemma_joined_lines_ends_with_newline(ls1.drop_last());
                assert(s[j] == a1[a1.len() - 1]);
                assert(s[j] == '\n');
                lemma_no_newline_at(l2, j - a2.len());
                assert(s[j] == l2[j - a2.len()]);
                assert(false);
            } else if l2.len() < l1.len() {
                let j = s.len() - 2 - l2.len();
                assert(a2.len() > a1.len() >= 0);
                assert(ls2.drop_last().len() > 0);
                lemma_joined_lines_ends_with_newline(ls2.drop_last());
                assert(s[j] == a2[a2.len() - 1]);
                assert(s[j] == '\n');
                lemma_no_newline_at(l1, j - a1.len());
                assert(s[j] == l1[j - a1.len()]);
                assert(false);
            }
        }
        assert(l1 =~= l2) by {
            assert(forall|i: int| 0 <= i < l1.len() ==> #[trigger] l1[i] == s[a1.len() + i]
                && l2[i] == s[a2.len() + i]);
        }
        assert(a1 =~= a2) by {
            assert(forall|i: int| 0 <= i < a1.len() ==> #[trigger] a1[i] == s[i] && a2[i] == s[i]);
        }
        assert(forall|i: int| 0 <= i < ls1.drop_last().len() ==> newline_count(
            #[trigger] ls1.drop_last()[i],
        ) == 0);
        assert(forall|i: int| 0 <= i < ls2.drop_last().len() ==> newline_count(
            #[trigger] ls2.drop_last()[i],
        ) == 0);
        lemma_joined_lines_injective(ls1.drop_last(), ls2.drop_last());
        assert(ls1 =~~= ls1.drop_last().push(l1));
        assert(ls2 =~~= ls2.drop_last().push(l2));
    }
}

} // verus!
