//! The argument list of a relaunch into another backend: session-selection
//! and one-shot flags are dropped, the prompt is not re-submitted, and the
//! chosen backend is forced.
use vstd::prelude::*;
use crate::backend::AgentBackend;
use crate::text::{contains_char, has_char, has_prefix, starts_with, str_eq};

verus! {

/// The character views of a list of strings.
pub open spec fn strings_view(v: Seq<String>) -> Seq<Seq<char>> {
    v.map_values(|s: String| s@)
}

/// Flags that select a session, a worktree or a backend: dropped together
/// with their value.
pub open spec fn dropped_flag(s: Seq<char>) -> bool {
    ||| s == "--backend"@
    ||| s == "--cursor"@
    ||| s == "--grok"@
    ||| s == "--resume"@
    ||| s == "-r"@
    ||| s == "--continue"@
    ||| s == "-c"@
    ||| s == "--fork-session"@
    ||| s == "--session-id"@
    ||| s == "--load"@
    ||| s == "--worktree"@
    ||| s == "-w"@
    ||| s == "--worktree-ref"@
    ||| s == "--restore-code"@
}

/// The `--flag=value` forms that are dropped.
pub open spec fn dropped_prefix(s: Seq<char>) -> bool {
    ||| has_prefix(s, "--backend="@)
    ||| has_prefix(s, "--resume="@)
    ||| has_prefix(s, "--session-id="@)
    ||| has_prefix(s, "--load="@)
    ||| has_prefix(s, "--worktree="@)
    ||| has_prefix(s, "--worktree-ref="@)
}

/// Kept flags whose following token is their value.
pub open spec fn value_flag(s: Seq<char>) -> bool {
    ||| s == "--model"@
    ||| s == "-m"@
    ||| s == "--cwd"@
    ||| s == "--rules"@
    ||| s == "--system-prompt-override"@
    ||| s == "--system-prompt"@
    ||| s == "--reasoning-effort"@
    ||| s == "--effort"@
    ||| s == "--permission-mode"@
    ||| s == "--output-format"@
    ||| s == "--leader-socket"@
    ||| s == "--debug-file"@
}

/// The arguments (program name excluded) that a relaunch keeps: scanning
/// stops at `--` or at the first positional argument; dropped flags go with
/// their value; a kept value-taking flag keeps its value when that does not
/// look like a flag.
pub open spec fn kept_args(a: Seq<Seq<char>>) -> Seq<Seq<char>>
    decreases a.len(),
{
    if a.len() == 0 {
        seq![]
    } else {
        let s = a[0];
        if s == "--"@ {
            seq![]
        } else if dropped_flag(s) {
            if has_char(s, '=') {
                kept_args(a.drop_first())
            } else if a.len() >= 2 {
                kept_args(a.subrange(2, a.len() as int))
            } else {
                seq![]
            }
        } else if dropped_prefix(s) {
            kept_args(a.drop_first())
        } else if !has_prefix(s, "-"@) {
            seq![]
        } else if value_flag(s) && a.len() >= 2 && !has_prefix(a[1], "-"@) {
            seq![s, a[1]] + kept_args(a.subrange(2, a.len() as int))
        } else {
            seq![s] + kept_args(a.drop_first())
        }
    }
}

/// The positions of the kept arguments in `a`, counting the first element of
/// `a` as position `base`: the same scan as [`kept_args`].
pub open spec fn kept_positions(a: Seq<Seq<char>>, base: int) -> Seq<int>
    decreases a.len(),
{
    if a.len() == 0 {
        seq![]
    } else {
        let s = a[0];
        if s == "--"@ {
            seq![]
        } else if dropped_flag(s) {
            if has_char(s, '=') {
                kept_positions(a.drop_first(), base + 1)
            } else if a.len() >= 2 {
                kept_positions(a.subrange(2, a.len() as int), base + 2)
            } else {
                seq![]
            }
        } else if dropped_prefix(s) {
            kept_positions(a.drop_first(), base + 1)
        } else if !has_prefix(s, "-"@) {
            seq![]
        } else if value_flag(s) && a.len() >= 2 && !has_prefix(a[1], "-"@) {
            seq![base, base + 1] + kept_positions(a.subrange(2, a.len() as int), base + 2)
        } else {
            seq![base] + kept_positions(a.drop_first(), base + 1)
        }
    }
}

/// `argv` without the program name.
pub open spec fn arg_rest(argv: Seq<Seq<char>>) -> Seq<Seq<char>> {
    if argv.len() == 0 {
        argv
    } else {
        argv.drop_first()
    }
}

pub open spec fn positions_view(v: Seq<usize>) -> Seq<int> {
    v.map_values(|i: usize| i as int)
}

pub open spec fn backend_flag(b: AgentBackend) -> Seq<char> {
    match b {
        AgentBackend::Cursor => "--cursor"@,
        AgentBackend::Grok => "--grok"@,
    }
}

/// The full relaunch argument list for the current `argv`.
pub open spec fn relaunch_args(argv: Seq<Seq<char>>, backend: AgentBackend) -> Seq<Seq<char>> {
    kept_args(arg_rest(argv)) + seq![backend_flag(backend), "--no-leader"@]
}

fn is_dropped_flag(s: &str) -> (r: bool)
    ensures
        r == dropped_flag(s@),
{
    str_eq(s, "--backend") || str_eq(s, "--cursor") || str_eq(s, "--grok") || str_eq(s, "--resume")
        || str_eq(s, "-r") || str_eq(s, "--continue") || str_eq(s, "-c") || str_eq(
        s,
        "--fork-session",
    ) || str_eq(s, "--session-id") || str_eq(s, "--load") || str_eq(s, "--worktree") || str_eq(
        s,
        "-w",
    ) || str_eq(s, "--worktree-ref") || str_eq(s, "--restore-code")
}

fn has_dropped_prefix(s: &str) -> (r: bool)
    ensures
        r == dropped_prefix(s@),
{
    starts_with(s, "--backend=") || starts_with(s, "--resume=") || starts_with(s, "--session-id=")
        || starts_with(s, "--load=") || starts_with(s, "--worktree=") || starts_with(
        s,
        "--worktree-ref=",
    )
}

/// Whether a kept flag takes the following token as its value.
pub fn looks_like_value_taking_flag(flag: &str) -> (r: bool)
    ensures
        r == value_flag(flag@),
{
    str_eq(flag, "--model") || str_eq(flag, "-m") || str_eq(flag, "--cwd") || str_eq(
        flag,
        "--rules",
    ) || str_eq(flag, "--system-prompt-override") || str_eq(flag, "--system-prompt") || str_eq(
        flag,
        "--reasoning-effort",
    ) || str_eq(flag, "--effort") || str_eq(flag, "--permission-mode") || str_eq(
        flag,
        "--output-format",
    ) || str_eq(flag, "--leader-socket") || str_eq(flag, "--debug-file")
}

/// The positions in `current_args` (whose first element is the program name)
/// of the arguments a relaunch keeps, in order. The caller can then carry
/// those arguments over exactly as it received them.
pub fn relaunch_kept_positions(current_args: &Vec<String>) -> (out: Vec<usize>)
    ensures
        positions_view(out@) == kept_positions(arg_rest(strings_view(current_args@)), 1),
{
    let ghost all = strings_view(current_args@);
    let ghost rest = arg_rest(all);
    let n = current_args.len();
    let mut out: Vec<usize> = Vec::new();
    let mut i: usize = if n == 0 {
        0
    } else {
        1
    };
    assert(rest =~= all.subrange(i as int, n as int));
    assert(positions_view(out@) =~= Seq::<int>::empty());
    while i < n
        invariant
            n == current_args@.len(),
            all == strings_view(current_args@),
            rest == arg_rest(all),
            i <= n,
            n > 0 ==> i >= 1,
            kept_positions(rest, 1) == positions_view(out@) + kept_positions(
                all.subrange(i as int, n as int),
                i as int,
            ),
        ensures
            kept_positions(rest, 1) == positions_view(out@),
        decreases n - i,
    {
        let ghost tail = all.subrange(i as int, n as int);
        let ghost before = positions_view(out@);
        let s = current_args[i].as_str();
        assert(tail[0] == s@);
        assert(tail.drop_first() =~= all.subrange(i + 1, n as int));
        if str_eq(s, "--") {
            assert(kept_positions(tail, i as int) == Seq::<int>::empty());
            assert(before + kept_positions(tail, i as int) =~= before);
            i = n;
            assert(before + kept_positions(all.subrange(i as int, n as int), i as int) =~= before);
            break;
        }
        if is_dropped_flag(s) {
            if contains_char(s, '=') {
                i = i + 1;
                continue;
            }
            if i + 1 < n {
                assert(tail.subrange(2, tail.len() as int) =~= all.subrange(i + 2, n as int));
                i = i + 2;
            } else {
                assert(kept_positions(tail, i as int) == Seq::<int>::empty());
                i = n;
                assert(before + kept_positions(all.subrange(i as int, n as int), i as int)
                    =~= before);
            }
            continue;
        }
        if has_dropped_prefix(s) {
            i = i + 1;
            continue;
        }
        if !starts_with(s, "-") {
            assert(kept_positions(tail, i as int) == Seq::<int>::empty());
            i = n;
            assert(before + kept_positions(all.subrange(i as int, n as int), i as int) =~= before);
            break;
        }
        out.push(i);
        if looks_like_value_taking_flag(s) && i + 1 < n && !starts_with(
            current_args[i + 1].as_str(),
            "-",
        ) {
            assert(tail[1] == current_args@[i + 1]@);
            out.push(i + 1);
            assert(positions_view(out@) =~= before + seq![i as int, i + 1]);
            assert(tail.subrange(2, tail.len() as int) =~= all.subrange(i + 2, n as int));
            assert(kept_positions(tail, i as int) == seq![i as int, i + 1] + kept_positions(
                all.subrange(i + 2, n as int),
                i + 2,
            ));
            assert(before + (seq![i as int, i + 1] + kept_positions(
                all.subrange(i + 2, n as int),
                i + 2,
            )) =~= positions_view(out@) + kept_positions(all.subrange(i + 2, n as int), i + 2));
            i = i + 2;
        } else {
            assert(positions_view(out@) =~= before.push(i as int));
            assert(kept_positions(tail, i as int) == seq![i as int] + kept_positions(
                all.subrange(i + 1, n as int),
                i + 1,
            ));
            assert(before + (seq![i as int] + kept_positions(all.subrange(i + 1, n as int), i + 1))
                =~= positions_view(out@) + kept_positions(all.subrange(i + 1, n as int), i + 1));
            i = i + 1;
        }
    }
    out
}

/// Drops session-selection and one-shot flags from `current_args` (whose
/// first element is the program name) and forces `--cursor` or `--grok`,
/// followed by `--no-leader`.
pub fn build_backend_relaunch_args(current_args: &Vec<String>, backend: AgentBackend) -> (out: Vec<
    String,
>)
    ensures
        strings_view(out@) == relaunch_args(strings_view(current_args@), backend),
{
    let ghost all = strings_view(current_args@);
    let ghost rest = arg_rest(all);
    let kept = relaunch_kept_positions(current_args);
    proof {
        relaunch_positions_pick_kept_args(rest, 1);
    }
    let ghost kp = kept_positions(rest, 1);
    let ghost ka = kept_args(rest);
    let mut out: Vec<String> = Vec::new();
    let m = kept.len();
    let mut j: usize = 0;
    while j < m
        invariant
            m == kept@.len(),
            all == strings_view(current_args@),
            rest == arg_rest(all),
            kp == kept_positions(rest, 1),
            ka == kept_args(rest),
            positions_view(kept@) == kp,
            kp.len() == ka.len(),
            forall|k: int|
                0 <= k < kp.len() ==> 1 <= #[trigger] kp[k] < 1 + rest.len() && rest[kp[k] - 1]
                    == ka[k],
            j <= m,
            strings_view(out@) == ka.take(j as int),
        decreases m - j,
    {
        let p = kept[j];
        assert(kp[j as int] == p as int);
        assert(all.len() == current_args@.len());
        assert(rest.len() > 0 ==> all.len() == rest.len() + 1);
        assert(rest[p - 1] == all[p as int]);
        let ghost before = strings_view(out@);
        out.push(current_args[p].clone());
        assert(strings_view(out@) =~= before.push(current_args@[p as int]@));
        assert(ka.take(j + 1) =~= ka.take(j as int).push(ka[j as int]));
        j = j + 1;
    }
    assert(ka.take(m as int) =~= ka);
    let mut forced = forced_backend_args(backend);
    out.append(&mut forced);
    assert(strings_view(out@) =~= ka + seq![backend_flag(backend), "--no-leader"@]);
    out
}

/// The arguments a relaunch ends with: the chosen backend's flag, then
/// `--no-leader`.
pub fn forced_backend_args(backend: AgentBackend) -> (out: Vec<String>)
    ensures
        strings_view(out@) == seq![backend_flag(backend), "--no-leader"@],
{
    let flag = match backend {
        AgentBackend::Cursor => "--cursor",
        AgentBackend::Grok => "--grok",
    };
    let mut out: Vec<String> = Vec::new();
    out.push(flag.to_owned());
    out.push("--no-leader".to_owned());
    assert(strings_view(out@) =~= seq![backend_flag(backend), "--no-leader"@]);
    out
}

/// The positions a relaunch keeps pick out exactly the kept arguments, in
/// order and without repeats, and never the program name.
pub proof fn relaunch_positions_pick_kept_args(a: Seq<Seq<char>>, base: int)
    ensures
        kept_positions(a, base).len() == kept_args(a).len(),
        forall|k: int|
            0 <= k < kept_positions(a, base).len() ==> {
                let p = #[trigger] kept_positions(a, base)[k];
                &&& base <= p < base + a.len()
                &&& a[p - base] == kept_args(a)[k]
            },
        forall|k: int, l: int|
            0 <= k < l < kept_positions(a, base).len() ==> kept_positions(a, base)[k]
                < kept_positions(a, base)[l],
    decreases a.len(),
{
    if a.len() == 0 {
    } else {
        let s = a[0];
        if s == "--"@ {
        } else if dropped_flag(s) {
            if has_char(s, '=') {
                let r = a.drop_first();
                relaunch_positions_pick_kept_args(r, base + 1);
                assert forall|k: int| 0 <= k < kept_positions(a, base).len() implies {
                    let p = #[trigger] kept_positions(a, base)[k];
                    &&& base <= p < base + a.len()
                    &&& a[p - base] == kept_args(a)[k]
                } by {
                    let p = kept_positions(r, base + 1)[k];
                    assert(r[p - (base + 1)] == a[p - base]);
                }
            } else if a.len() >= 2 {
                let r = a.subrange(2, a.len() as int);
                relaunch_positions_pick_kept_args(r, base + 2);
                assert forall|k: int| 0 <= k < kept_positions(a, base).len() implies {
                    let p = #[trigger] kept_positions(a, base)[k];
                    &&& base <= p < base + a.len()
                    &&& a[p - base] == kept_args(a)[k]
                } by {
                    let p = kept_positions(r, base + 2)[k];
                    assert(r[p - (base + 2)] == a[p - base]);
                }
            }
        } else if dropped_prefix(s) {
            let r = a.drop_first();
            relaunch_positions_pick_kept_args(r, base + 1);
            assert forall|k: int| 0 <= k < kept_positions(a, base).len() implies {
                let p = #[trigger] kept_positions(a, base)[k];
                &&& base <= p < base + a.len()
                &&& a[p - base] == kept_args(a)[k]
            } by {
                let p = kept_positions(r, base + 1)[k];
                assert(r[p - (base + 1)] == a[p - base]);
            }
        } else if !has_prefix(s, "-"@) {
        } else if value_flag(s) && a.len() >= 2 && !has_prefix(a[1], "-"@) {
            let r = a.subrange(2, a.len() as int);
            relaunch_positions_pick_kept_args(r, base + 2);
            let kp = kept_positions(a, base);
            let kr = kept_positions(r, base + 2);
            assert(kp == seq![base, base + 1] + kr);
            assert(kept_args(a) == seq![s, a[1]] + kept_args(r));
            assert forall|k: int| 0 <= k < kp.len() implies {
                let p = #[trigger] kept_positions(a, base)[k];
                &&& base <= p < base + a.len()
                &&& a[p - base] == kept_args(a)[k]
            } by {
                if k >= 2 {
                    let p = kr[k - 2];
                    assert(kp[k] == p);
                    assert(kept_args(a)[k] == kept_args(r)[k - 2]);
                    assert(r[p - (base + 2)] == a[p - base]);
                }
            }
            assert forall|k: int, l: int| 0 <= k < l < kp.len() implies kp[k] < kp[l] by {
                if k >= 2 {
                    assert(kp[k] == kr[k - 2] && kp[l] == kr[l - 2]);
                } else if l >= 2 {
                    assert(kp[l] == kr[l - 2]);
                    assert(base + 2 <= kr[l - 2]);
                }
            }
        } else {
            let r = a.drop_first();
            relaunch_positions_pick_kept_args(r, base + 1);
            let kp = kept_positions(a, base);
            let kr = kept_positions(r, base + 1);
            assert(kp == seq![base] + kr);
            assert(kept_args(a) == seq![s] + kept_args(r));
            assert forall|k: int| 0 <= k < kp.len() implies {
                let p = #[trigger] kept_positions(a, base)[k];
                &&& base <= p < base + a.len()
                &&& a[p - base] == kept_args(a)[k]
            } by {
                if k >= 1 {
                    let p = kr[k - 1];
                    assert(kp[k] == p);
                    assert(kept_args(a)[k] == kept_args(r)[k - 1]);
                    assert(r[p - (base + 1)] == a[p - base]);
                }
            }
            assert forall|k: int, l: int| 0 <= k < l < kp.len() implies kp[k] < kp[l] by {
                if k >= 1 {
                    assert(kp[k] == kr[k - 1] && kp[l] == kr[l - 1]);
                } else {
                    assert(kp[l] == kr[l - 1]);
                    assert(base + 1 <= kr[l - 1]);
                }
            }
        }
    }
}

proof fn lemma_dash_prefix(x: Seq<char>)
    ensures
        has_prefix(x, "-"@) <==> (x.len() >= 1 && x[0] == '-'),
{
    reveal_strlit("-");
    if x.len() >= 1 && x[0] == '-' {
        assert(x.subrange(0, 1) =~= "-"@);
    }
    if has_prefix(x, "-"@) {
        assert(x.subrange(0, 1)[0] == x[0]);
    }
}

proof fn lemma_prefix_first(x: Seq<char>, p: Seq<char>)
    requires
        has_prefix(x, p),
        p.len() >= 1,
    ensures
        x[0] == p[0],
{
    assert(x.subrange(0, p.len() as int)[0] == x[0]);
}

/// Session-selection flags all look like flags, so a token that does not is
/// never one of them.
proof fn lemma_non_flag_not_dropped(x: Seq<char>)
    requires
        !has_prefix(x, "-"@),
    ensures
        !dropped_flag(x),
        !dropped_prefix(x),
        x != "--"@,
{
    lemma_dash_prefix(x);
    reveal_strlit("--backend");
    reveal_strlit("--cursor");
    reveal_strlit("--grok");
    reveal_strlit("--resume");
    reveal_strlit("-r");
    reveal_strlit("--continue");
    reveal_strlit("-c");
    reveal_strlit("--fork-session");
    reveal_strlit("--session-id");
    reveal_strlit("--load");
    reveal_strlit("--worktree");
    reveal_strlit("-w");
    reveal_strlit("--worktree-ref");
    reveal_strlit("--restore-code");
    reveal_strlit("--backend=");
    reveal_strlit("--resume=");
    reveal_strlit("--session-id=");
    reveal_strlit("--load=");
    reveal_strlit("--worktree=");
    reveal_strlit("--worktree-ref=");
    reveal_strlit("--");
    if has_prefix(x, "--backend="@) {
        lemma_prefix_first(x, "--backend="@);
    }
    if has_prefix(x, "--resume="@) {
        lemma_prefix_first(x, "--resume="@);
    }
    if has_prefix(x, "--session-id="@) {
        lemma_prefix_first(x, "--session-id="@);
    }
    if has_prefix(x, "--load="@) {
        lemma_prefix_first(x, "--load="@);
    }
    if has_prefix(x, "--worktree="@) {
        lemma_prefix_first(x, "--worktree="@);
    }
    if has_prefix(x, "--worktree-ref="@) {
        lemma_prefix_first(x, "--worktree-ref="@);
    }
}

/// A relaunch never carries a session-selection flag, one of their
/// `--flag=value` forms, or `--`: every kept argument is a flag that is not
/// dropped, or the value right after a kept value-taking flag.
pub proof fn relaunch_drops_session_flags(a: Seq<Seq<char>>)
    ensures
        forall|k: int|
            0 <= k < kept_args(a).len() ==> {
                let x = #[trigger] kept_args(a)[k];
                &&& !dropped_flag(x)
                &&& !dropped_prefix(x)
                &&& x != "--"@
            },
    decreases a.len(),
{
    if a.len() == 0 {
    } else {
        let s = a[0];
        if s == "--"@ {
        } else if dropped_flag(s) {
            if has_char(s, '=') {
                relaunch_drops_session_flags(a.drop_first());
                assert(kept_args(a) == kept_args(a.drop_first()));
            } else if a.len() >= 2 {
                relaunch_drops_session_flags(a.subrange(2, a.len() as int));
                assert(kept_args(a) == kept_args(a.subrange(2, a.len() as int)));
            }
        } else if dropped_prefix(s) {
            relaunch_drops_session_flags(a.drop_first());
            assert(kept_args(a) == kept_args(a.drop_first()));
        } else if !has_prefix(s, "-"@) {
        } else if value_flag(s) && a.len() >= 2 && !has_prefix(a[1], "-"@) {
            let r = a.subrange(2, a.len() as int);
            relaunch_drops_session_flags(r);
            lemma_non_flag_not_dropped(a[1]);
            assert forall|k: int| 0 <= k < kept_args(a).len() implies {
                let x = #[trigger] kept_args(a)[k];
                &&& !dropped_flag(x)
                &&& !dropped_prefix(x)
                &&& x != "--"@
            } by {
                if k >= 2 {
                    assert(kept_args(a)[k] == kept_args(r)[k - 2]);
                }
            }
        } else {
            let r = a.drop_first();
            relaunch_drops_session_flags(r);
            assert forall|k: int| 0 <= k < kept_args(a).len() implies {
                let x = #[trigger] kept_args(a)[k];
                &&& !dropped_flag(x)
                &&& !dropped_prefix(x)
                &&& x != "--"@
            } by {
                if k >= 1 {
                    assert(kept_args(a)[k] == kept_args(r)[k - 1]);
                }
            }
        }
    }
}

/// The relaunch always ends by forcing the chosen backend and `--no-leader`.
pub proof fn relaunch_forces_backend(argv: Seq<Seq<char>>, backend: AgentBackend)
    ensures
        ({
            let r = relaunch_args(argv, backend);
            &&& r.len() >= 2
            &&& r[r.len() - 2] == backend_flag(backend)
            &&& r[r.len() - 1] == "--no-leader"@
        }),
{
}

/// A prefix of `x` agrees with `x` on its first three characters after `--`.
proof fn lemma_prefix_chars(x: Seq<char>, p: Seq<char>)
    requires
        p.len() >= 5,
    ensures
        has_prefix(x, p) ==> x[2] == p[2] && x[3] == p[3] && x[4] == p[4],
{
    if has_prefix(x, p) {
        assert(x.subrange(0, p.len() as int)[2] == x[2]);
        assert(x.subrange(0, p.len() as int)[3] == x[3]);
        assert(x.subrange(0, p.len() as int)[4] == x[4]);
    }
}

/// Each of the flags `--model`, `-m`, `--cwd`, `--rules`,
/// `--system-prompt-override`, `--system-prompt`, `--reasoning-effort`,
/// `--effort`, `--permission-mode`, `--output-format`, `--leader-socket` and
/// `--debug-file` is kept together with the token after it, when that token
/// does not look like a flag, and the scan goes on after the value.
pub proof fn relaunch_keeps_flag_values(f: Seq<char>, v: Seq<char>, r: Seq<Seq<char>>)
    requires
        f == "--model"@ || f == "-m"@ || f == "--cwd"@ || f == "--rules"@ || f
            == "--system-prompt-override"@ || f == "--system-prompt"@ || f == "--reasoning-effort"@
            || f == "--effort"@ || f == "--permission-mode"@ || f == "--output-format"@ || f
            == "--leader-socket"@ || f == "--debug-file"@,
        !(v.len() >= 1 && v[0] == '-'),
    ensures
        kept_args(seq![f, v] + r) == seq![f, v] + kept_args(r),
        value_flag(f),
{
    reveal_strlit("--");
    reveal_strlit("-");
    reveal_strlit("--backend");
    reveal_strlit("--cursor");
    reveal_strlit("--grok");
    reveal_strlit("--resume");
    reveal_strlit("-r");
    reveal_strlit("--continue");
    reveal_strlit("-c");
    reveal_strlit("--fork-session");
    reveal_strlit("--session-id");
    reveal_strlit("--load");
    reveal_strlit("--worktree");
    reveal_strlit("-w");
    reveal_strlit("--worktree-ref");
    reveal_strlit("--restore-code");
    reveal_strlit("--backend=");
    reveal_strlit("--resume=");
    reveal_strlit("--session-id=");
    reveal_strlit("--load=");
    reveal_strlit("--worktree=");
    reveal_strlit("--worktree-ref=");
    reveal_strlit("--model");
    reveal_strlit("-m");
    reveal_strlit("--cwd");
    reveal_strlit("--rules");
    reveal_strlit("--system-prompt-override");
    reveal_strlit("--system-prompt");
    reveal_strlit("--reasoning-effort");
    reveal_strlit("--effort");
    reveal_strlit("--permission-mode");
    reveal_strlit("--output-format");
    reveal_strlit("--leader-socket");
    reveal_strlit("--debug-file");
    let a = seq![f, v] + r;
    assert(a[0] == f && a[1] == v);
    lemma_dash_prefix(f);
    lemma_dash_prefix(v);
    assert(!has_char(f, '='));
    lemma_prefix_chars(f, "--backend="@);
    lemma_prefix_chars(f, "--resume="@);
    lemma_prefix_chars(f, "--session-id="@);
    lemma_prefix_chars(f, "--load="@);
    lemma_prefix_chars(f, "--worktree="@);
    lemma_prefix_chars(f, "--worktree-ref="@);
    assert(a.subrange(2, a.len() as int) =~= r);
    assert(f.len() >= 2);
    if f.len() == 2 {
        assert(f[1] == 'm');
    } else if f.len() == 8 || f.len() == 12 {
        assert(f[2] == 'e' || f[2] == 'd');
    }
    assert(a[0] != "--"@);
    assert(!dropped_flag(a[0]));
    assert(!dropped_prefix(a[0]));
    assert(has_prefix(a[0], "-"@));
    assert(value_flag(a[0]));
    assert(a.len() >= 2);
    assert(!has_prefix(a[1], "-"@));
}

/// A kept flag that is none of the value-taking flags above is kept alone:
/// the token after it is scanned on its own, whatever it looks like.
pub proof fn relaunch_other_flags_take_no_value(f: Seq<char>, r: Seq<Seq<char>>)
    requires
        f.len() >= 1 && f[0] == '-',
        f != "--"@,
        !dropped_flag(f),
        !dropped_prefix(f),
        !(f == "--model"@ || f == "-m"@ || f == "--cwd"@ || f == "--rules"@ || f
            == "--system-prompt-override"@ || f == "--system-prompt"@ || f == "--reasoning-effort"@
            || f == "--effort"@ || f == "--permission-mode"@ || f == "--output-format"@ || f
            == "--leader-socket"@ || f == "--debug-file"@),
    ensures
        kept_args(seq![f] + r) == seq![f] + kept_args(r),
        !value_flag(f),
{
    reveal_strlit("--");
    reveal_strlit("-");
    reveal_strlit("--backend");
    reveal_strlit("--cursor");
    reveal_strlit("--grok");
    reveal_strlit("--resume");
    reveal_strlit("-r");
    reveal_strlit("--continue");
    reveal_strlit("-c");
    reveal_strlit("--fork-session");
    reveal_strlit("--session-id");
    reveal_strlit("--load");
    reveal_strlit("--worktree");
    reveal_strlit("-w");
    reveal_strlit("--worktree-ref");
    reveal_strlit("--restore-code");
    reveal_strlit("--backend=");
    reveal_strlit("--resume=");
    reveal_strlit("--session-id=");
    reveal_strlit("--load=");
    reveal_strlit("--worktree=");
    reveal_strlit("--worktree-ref=");
    reveal_strlit("--model");
    reveal_strlit("-m");
    reveal_strlit("--cwd");
    reveal_strlit("--rules");
    reveal_strlit("--system-prompt-override");
    reveal_strlit("--system-prompt");
    reveal_strlit("--reasoning-effort");
    reveal_strlit("--effort");
    reveal_strlit("--permission-mode");
    reveal_strlit("--output-format");
    reveal_strlit("--leader-socket");
    reveal_strlit("--debug-file");
    let a = seq![f] + r;
    assert(a[0] == f);
    lemma_dash_prefix(f);
    assert(a.drop_first() =~= r);
}

/// Each session-selection flag `--backend`, `--cursor`, `--grok`,
/// `--resume`, `-r`, `--continue`, `-c`, `--fork-session`, `--session-id`,
/// `--load`, `--worktree`, `-w`, `--worktree-ref` and `--restore-code` is
/// dropped together with the token after it.
pub proof fn relaunch_drops_flag_and_value(f: Seq<char>, x: Seq<char>, r: Seq<Seq<char>>)
    requires
        f == "--backend"@ || f == "--cursor"@ || f == "--grok"@ || f == "--resume"@ || f == "-r"@
            || f == "--continue"@ || f == "-c"@ || f == "--fork-session"@ || f == "--session-id"@
            || f == "--load"@ || f == "--worktree"@ || f == "-w"@ || f == "--worktree-ref"@ || f
            == "--restore-code"@,
    ensures
        kept_args(seq![f, x] + r) == kept_args(r),
{
    reveal_strlit("--");
    reveal_strlit("--backend");
    reveal_strlit("--cursor");
    reveal_strlit("--grok");
    reveal_strlit("--resume");
    reveal_strlit("-r");
    reveal_strlit("--continue");
    reveal_strlit("-c");
    reveal_strlit("--fork-session");
    reveal_strlit("--session-id");
    reveal_strlit("--load");
    reveal_strlit("--worktree");
    reveal_strlit("-w");
    reveal_strlit("--worktree-ref");
    reveal_strlit("--restore-code");
    let a = seq![f, x] + r;
    assert(a[0] == f);
    assert(f.len() >= 2);
    if f.len() == 2 {
        assert(f[1] != '-');
    }
    assert(a[0] != "--"@);
    assert(dropped_flag(a[0]));
    assert(!has_char(f, '='));
    assert(a.subrange(2, a.len() as int) =~= r);
}

/// The `--flag=value` forms of `--backend`, `--resume`, `--session-id`,
/// `--load`, `--worktree` and `--worktree-ref` are dropped on their own.
pub proof fn relaunch_drops_flag_with_inline_value(f: Seq<char>, r: Seq<Seq<char>>)
    requires
        has_prefix(f, "--backend="@) || has_prefix(f, "--resume="@) || has_prefix(
            f,
            "--session-id="@,
        ) || has_prefix(f, "--load="@) || has_prefix(f, "--worktree="@) || has_prefix(
            f,
            "--worktree-ref="@,
        ),
    ensures
        kept_args(seq![f] + r) == kept_args(r),
{
    reveal_strlit("--");
    reveal_strlit("--backend=");
    reveal_strlit("--resume=");
    reveal_strlit("--session-id=");
    reveal_strlit("--load=");
    reveal_strlit("--worktree=");
    reveal_strlit("--worktree-ref=");
    let a = seq![f] + r;
    assert(a[0] == f);
    assert(f.len() >= 7);
    assert(a[0] != "--"@);
    assert(a.drop_first() =~= r);
    if dropped_flag(f) {
        let k = if has_prefix(f, "--backend="@) {
            9int
        } else if has_prefix(f, "--resume="@) {
            8int
        } else if has_prefix(f, "--session-id="@) {
            12int
        } else if has_prefix(f, "--load="@) {
            6int
        } else if has_prefix(f, "--worktree="@) {
            10int
        } else {
            14int
        };
        assert(f.subrange(0, k + 1)[k] == f[k]);
        assert(f[k] == '=');
        assert(has_char(f, '='));
    }
}

/// Scanning stops at `--` and at the first token that does not look like a
/// flag (the prompt): nothing after it is kept.
pub proof fn relaunch_stops_at_prompt(t: Seq<char>, r: Seq<Seq<char>>)
    requires
        t == "--"@ || !(t.len() >= 1 && t[0] == '-'),
    ensures
        kept_args(seq![t] + r) == Seq::<Seq<char>>::empty(),
{
    let a = seq![t] + r;
    assert(a[0] == t);
    if t != "--"@ {
        lemma_dash_prefix(t);
        lemma_non_flag_not_dropped(t);
    }
}

/// A relaunch into Cursor ends with `--cursor --no-leader`, one into Grok
/// with `--grok --no-leader`.
pub proof fn relaunch_ends_with_backend_flag(argv: Seq<Seq<char>>, backend: AgentBackend)
    ensures
        ({
            let r = relaunch_args(argv, backend);
            &&& r.len() >= 2
            &&& r[r.len() - 2] == (match backend {
                AgentBackend::Cursor => "--cursor"@,
                AgentBackend::Grok => "--grok"@,
            })
            &&& r[r.len() - 1] == "--no-leader"@
        }),
{
}

} // verus!
