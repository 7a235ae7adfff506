//! The post-install build command: whitespace tokenization of the manifest's
//! command string, and the shell invocation the build subprocess is spawned
//! with — `sh -c <command>` on POSIX platforms, `cmd /c <command>` on
//! Windows. Tokenization supports no quoting or escaping: a command is a flat
//! run of whitespace-separated words.

use vstd::prelude::*;

verus! {

/// Whether `c` separates tokens of a build command.
pub open spec fn is_cmd_ws(c: char) -> bool {
    c == ' ' || c == '\t' || c == '\n' || c == '\r'
}

/// Length of the maximal leading run of characters of `s` whose
/// whitespace-ness equals `ws`.
pub open spec fn leading_run(s: Seq<char>, ws: bool) -> nat
    decreases s.len(),
{
    if s.len() == 0 {
        0
    } else if is_cmd_ws(s[0]) == ws {
        1 + leading_run(s.drop_first(), ws)
    } else {
        0
    }
}

/// A leading run never reaches past the end of the sequence.
proof fn lemma_leading_run_le(s: Seq<char>, ws: bool)
    ensures
        leading_run(s, ws) <= s.len(),
    decreases s.len(),
{
    if s.len() > 0 && is_cmd_ws(s[0]) == ws {
        lemma_leading_run_le(s.drop_first(), ws);
    }
}

/// The whitespace tokenization of `s`: the maximal non-whitespace runs of
/// `s`, in order. Every token is non-empty and free of whitespace.
pub open spec fn tokens_of(s: Seq<char>) -> Seq<Seq<char>>
    decreases s.len(),
    via tokens_of_decreases
{
    if s.len() == 0 {
        Seq::empty()
    } else if is_cmd_ws(s[0]) {
        tokens_of(s.drop_first())
    } else {
        let k = leading_run(s, false) as int;
        seq![s.subrange(0, k)] + tokens_of(s.subrange(k, s.len() as int))
    }
}

#[via_fn]
proof fn tokens_of_decreases(s: Seq<char>) {
    if s.len() > 0 && !is_cmd_ws(s[0]) {
        lemma_leading_run_le(s, false);
        assert(leading_run(s, false) == 1 + leading_run(s.drop_first(), false));
    }
}

/// Every token of a tokenization is non-empty and free of whitespace.
pub proof fn lemma_tokens_wf(s: Seq<char>)
    ensures
        forall|i: int| 0 <= i < tokens_of(s).len() ==> (#[trigger] tokens_of(s)[i]).len() > 0,
        forall|i: int, m: int|
            0 <= i < tokens_of(s).len() && 0 <= m < tokens_of(s)[i].len() ==> !is_cmd_ws(
                #[trigger] tokens_of(s)[i][m],
            ),
    decreases s.len(),
{
    if s.len() == 0 {
    } else if is_cmd_ws(s[0]) {
        lemma_tokens_wf(s.drop_first());
        assert(tokens_of(s) == tokens_of(s.drop_first()));
    } else {
        let k = leading_run(s, false) as int;
        let rest = s.subrange(k, s.len() as int);
        lemma_leading_run_le(s, false);
        lemma_leading_run_flat(s, false);
        lemma_tokens_wf(rest);
        assert(k >= 1);
        assert(tokens_of(s) == seq![s.subrange(0, k)] + tokens_of(rest));
        assert forall|i: int| 0 <= i < tokens_of(s).len() implies (#[trigger] tokens_of(
            s,
        )[i]).len() > 0 by {
            if i == 0 {
                assert(tokens_of(s)[0] == s.subrange(0, k));
            } else {
                assert(tokens_of(s)[i] == tokens_of(rest)[i - 1]);
            }
        }
        assert forall|i: int, m: int|
            0 <= i < tokens_of(s).len() && 0 <= m < tokens_of(s)[i].len() implies !is_cmd_ws(
            #[trigger] tokens_of(s)[i][m],
        ) by {
            if i == 0 {
                assert(tokens_of(s)[0] == s.subrange(0, k));
                assert(tokens_of(s)[0][m] == s[m]);
                assert(is_cmd_ws(s[m]) == false);
            } else {
                assert(tokens_of(s)[i] == tokens_of(rest)[i - 1]);
                assert(!is_cmd_ws(tokens_of(rest)[i - 1][m]));
            }
        }
    }
}

/// Every character inside a leading run is of the run's class.
proof fn lemma_leading_run_flat(s: Seq<char>, ws: bool)
    ensures
        forall|m: int| 0 <= m < leading_run(s, ws) ==> is_cmd_ws(s[m]) == ws,
    decreases s.len(),
{
    if s.len() > 0 && is_cmd_ws(s[0]) == ws {
        lemma_leading_run_le(s, ws);
        lemma_leading_run_flat(s.drop_first(), ws);
        assert forall|m: int| 0 <= m < leading_run(s, ws) implies is_cmd_ws(s[m]) == ws by {
            if m > 0 {
                assert(s.drop_first()[m - 1] == s[m]);
            }
        }
    }
}

/// The tokens of `ts` joined by single spaces.
pub open spec fn joined(ts: Seq<Seq<char>>) -> Seq<char>
    decreases ts.len(),
{
    if ts.len() == 0 {
        Seq::empty()
    } else if ts.len() == 1 {
        ts[0]
    } else {
        joined(ts.drop_last()) + seq![' '] + ts.last()
    }
}

/// The leading run of `s` on the class `ws` is exactly `k` long when the
/// first `k` characters are of that class and the character after them, if
/// any, is not.
proof fn lemma_leading_run_value(s: Seq<char>, ws: bool, k: int)
    requires
        0 <= k <= s.len(),
        forall|m: int| 0 <= m < k ==> is_cmd_ws(s[m]) == ws,
        k < s.len() ==> is_cmd_ws(s[k]) != ws,
    ensures
        leading_run(s, ws) == k,
    decreases k,
{
    if k == 0 {
    } else {
        lemma_leading_run_value(s.drop_first(), ws, k - 1);
    }
}

/// `s` without its leading and trailing whitespace.
pub open spec fn trimmed(s: Seq<char>) -> Seq<char> {
    if leading_run(s, true) == s.len() {
        Seq::empty()
    } else {
        s.subrange(
            leading_run(s, true) as int,
            s.len() - leading_run(s.reverse(), true) as int,
        )
    }
}

/// Strip leading and trailing whitespace, as a registry's plain-text git
/// URI response carries a trailing newline.
pub fn trim_ws(s: &str) -> (r: String)
    ensures
        r@ == trimmed(s@),
{
    let n = s.unicode_len();
    let mut a: usize = 0;
    while a < n && is_ws_char(s.get_char(a))
        invariant
            n == s@.len(),
            a <= n,
            forall|m: int| 0 <= m < a ==> is_cmd_ws(s@[m]),
        decreases n - a,
    {
        a = a + 1;
    }
    if a == n {
        proof {
            lemma_leading_run_value(s@, true, n as int);
        }
        return String::new();
    }
    let mut b: usize = n;
    while b > a + 1 && is_ws_char(s.get_char(b - 1))
        invariant
            n == s@.len(),
            a < b <= n,
            forall|m: int| b <= m < n ==> is_cmd_ws(s@[m]),
        decreases b,
    {
        b = b - 1;
    }
    let out = s.substring_char(a, b).to_owned();
    proof {
        lemma_leading_run_value(s@, true, a as int);
        assert forall|m: int| 0 <= m < n - b implies is_cmd_ws(s@.reverse()[m]) == true by {
            assert(s@.reverse()[m] == s@[n - 1 - m]);
        }
        assert(s@.reverse()[n - b] == s@[b - 1]);
        assert(!is_cmd_ws(s@[b - 1]));
        lemma_leading_run_value(s@.reverse(), true, n - b);
    }
    out
}

/// Whether `c` separates tokens of a build command.
fn is_ws_char(c: char) -> (r: bool)
    ensures
        r == is_cmd_ws(c),
{
    c == ' ' || c == '\t' || c == '\n' || c == '\r'
}

/// Split a build command on whitespace into its tokens, in order.
pub fn tokenize(command: &str) -> (r: Vec<String>)
    ensures
        r@.map_values(|t: String| t@) == tokens_of(command@),
{
    let n = command.unicode_len();
    let mut r: Vec<String> = Vec::new();
    let mut i: usize = 0;
    proof {
        assert(command@.subrange(0, n as int) =~= command@);
        assert(r@.map_values(|t: String| t@) =~= Seq::<Seq<char>>::empty());
        assert(Seq::<Seq<char>>::empty() + tokens_of(command@) =~= tokens_of(command@));
    }
    while i < n
        invariant
            n == command@.len(),
            i <= n,
            tokens_of(command@) == r@.map_values(|t: String| t@) + tokens_of(
                command@.subrange(i as int, n as int),
            ),
        decreases n - i,
    {
        if is_ws_char(command.get_char(i)) {
            proof {
                assert(command@.subrange(i as int, n as int).drop_first() =~= command@.subrange(
                    i + 1,
                    n as int,
                ));
            }
            i = i + 1;
        } else {
            let start = i;
            let mut j = i + 1;
            while j < n && !is_ws_char(command.get_char(j))
                invariant
                    n == command@.len(),
                    i < j <= n,
                    forall|m: int| i <= m < j ==> !is_cmd_ws(command@[m]),
                decreases n - j,
            {
                j = j + 1;
            }
            let token = command.substring_char(start, j).to_owned();
            proof {
                let rest = command@.subrange(i as int, n as int);
                assert forall|m: int| 0 <= m < j - i implies !is_cmd_ws(rest[m]) by {
                    assert(rest[m] == command@[i + m]);
                }
                assert(j < n ==> is_cmd_ws(rest[j - i]));
                lemma_leading_run_value(rest, false, j - i);
                assert(rest.subrange(0, j - i) =~= command@.subrange(i as int, j as int));
                assert(rest.subrange(j - i, rest.len() as int) =~= command@.subrange(
                    j as int,
                    n as int,
                ));
                assert((r@ + seq![token]).map_values(|t: String| t@) =~= r@.map_values(
                    |t: String| t@,
                ) + seq![token@]);
                assert(r@.map_values(|t: String| t@) + (seq![token@] + tokens_of(
                    command@.subrange(j as int, n as int),
                )) =~= (r@.map_values(|t: String| t@) + seq![token@]) + tokens_of(
                    command@.subrange(j as int, n as int),
                ));
            }
            r.push(token);
            i = j;
        }
    }
    proof {
        assert(command@.subrange(n as int, n as int) =~= Seq::<char>::empty());
        assert(r@.map_values(|t: String| t@) + Seq::<Seq<char>>::empty() =~= r@.map_values(
            |t: String| t@,
        ));
    }
    r
}

/// Join tokens with single spaces.
pub fn join_tokens(tokens: &Vec<String>) -> (r: String)
    ensures
        r@ == joined(tokens@.map_values(|t: String| t@)),
{
    let mut acc = String::new();
    let mut k: usize = 0;
    while k < tokens.len()
        invariant
            k <= tokens@.len(),
            acc@ == joined(tokens@.map_values(|t: String| t@).take(k as int)),
        decreases tokens@.len() - k,
    {
        proof {
            let all = tokens@.map_values(|t: String| t@);
            assert(all.take(k + 1).drop_last() =~= all.take(k as int));
            assert(all.take(k + 1).last() == all[k as int]);
            reveal_strlit(" ");
            assert(" "@ =~= seq![' ']);
            assert(Seq::<char>::empty() + all[k as int] =~= all[k as int]);
        }
        if k > 0 {
            acc.append(" ");
        }
        acc.append(tokens[k].as_str());
        k = k + 1;
    }
    proof {
        let all = tokens@.map_values(|t: String| t@);
        assert(all.take(tokens@.len() as int) =~= all);
    }
    acc
}

/// A planned subprocess invocation: the program to spawn and its arguments.
pub struct ShellCommand {
    pub program: String,
    pub args: Vec<String>,
}

/// Plan the shell invocation of a build command: the command string is
/// tokenized on whitespace and handed, rejoined with single spaces, to the
/// platform shell — `sh -c` on POSIX, `cmd /c` on Windows.
pub fn shell_invocation(command: &str, windows: bool) -> (r: ShellCommand)
    ensures
        windows ==> r.program@ == "cmd"@,
        !windows ==> r.program@ == "sh"@,
        r.args@.len() == 2,
        windows ==> r.args@[0]@ == "/c"@,
        !windows ==> r.args@[0]@ == "-c"@,
        r.args@[1]@ == joined(tokens_of(command@)),
{
    let program = if windows {
        String::from_str("cmd")
    } else {
        String::from_str("sh")
    };
    let flag = if windows {
        String::from_str("/c")
    } else {
        String::from_str("-c")
    };
    let tokens = tokenize(command);
    let joined_cmd = join_tokens(&tokens);
    let mut args: Vec<String> = Vec::new();
    args.push(flag);
    args.push(joined_cmd);
    ShellCommand { program, args }
}

} // verus!
