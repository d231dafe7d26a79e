//! The command builder: a pure function assembling a `kubectl`-style command
//! line from structured parameters, with a deterministic token order —
//! config and context first, then the verb and its positional targets, then
//! the namespace, then the operation's flags.
//!
//! Every argument is neutralized before it enters the line: a token made of
//! safe characters passes through unchanged, anything else is single-quoted
//! with embedded quotes escaped, so the produced line is syntactically
//! well-formed even when an argument carries spaces or shell metacharacters.

use vstd::prelude::*;
use vstd::string::StrSliceExecFns;
use vstd::string::StringExecFns;
use crate::context::ClusterContext;
use crate::text::push_char;

verus! {

/// A built command line, immutable once built.
pub struct TerminalCommand {
    line: String,
}

impl View for TerminalCommand {
    type V = Seq<char>;

    closed spec fn view(&self) -> Seq<char> {
        self.line@
    }
}

impl TerminalCommand {
    /// The command line as a string slice.
    pub fn as_line(&self) -> (r: &str)
        ensures
            r@ == self@,
    {
        self.line.as_str()
    }

    /// The command line, consuming the command.
    pub fn into_line(self) -> (r: String)
        ensures
            r@ == self@,
    {
        self.line
    }
}

impl Clone for TerminalCommand {
    fn clone(&self) -> (r: Self)
        ensures
            r@ == self@,
    {
        TerminalCommand { line: self.line.clone() }
    }
}

/// Characters that no POSIX shell treats specially when unquoted.
pub open spec fn spec_safe_char(c: char) -> bool {
    ||| ('a' as u32) <= (c as u32) && (c as u32) <= ('z' as u32)
    ||| ('A' as u32) <= (c as u32) && (c as u32) <= ('Z' as u32)
    ||| ('0' as u32) <= (c as u32) && (c as u32) <= ('9' as u32)
    ||| c == '-'
    ||| c == '_'
    ||| c == '/'
    ||| c == '.'
    ||| c == '='
    ||| c == ':'
    ||| c == ','
    ||| c == '+'
    ||| c == '@'
    ||| c == '%'
}

/// Whether a token may pass to the shell unquoted.
pub open spec fn spec_all_safe(s: Seq<char>) -> bool {
    forall|i: int| 0 <= i < s.len() ==> spec_safe_char(#[trigger] s[i])
}

/// How one character is written inside a single-quoted token: a single quote
/// closes the token, emits an escaped quote, and reopens it.
pub open spec fn spec_escape_char(c: char) -> Seq<char> {
    if c == '\'' {
        seq!['\'', '\\', '\'', '\'']
    } else {
        seq![c]
    }
}

/// The body of a single-quoted token.
pub open spec fn spec_quote_body(s: Seq<char>) -> Seq<char>
    decreases s.len(),
{
    if s.len() == 0 {
        Seq::empty()
    } else {
        spec_quote_body(s.drop_last()) + spec_escape_char(s.last())
    }
}

/// A shell-safe rendering of one token: unchanged when it is non-empty and
/// made of safe characters only, single-quoted otherwise.
pub open spec fn spec_quoted(s: Seq<char>) -> Seq<char> {
    if s.len() > 0 && spec_all_safe(s) {
        s
    } else {
        seq!['\''] + spec_quote_body(s) + seq!['\'']
    }
}

/// Quoting as a function, for `Seq::map_values`.
pub open spec fn quoted_fn() -> spec_fn(Seq<char>) -> Seq<char> {
    |s: Seq<char>| spec_quoted(s)
}

/// The tokens joined by single spaces.
pub open spec fn spec_join_spaced(toks: Seq<Seq<char>>) -> Seq<char>
    decreases toks.len(),
{
    if toks.len() == 0 {
        Seq::empty()
    } else if toks.len() == 1 {
        toks[0]
    } else {
        spec_join_spaced(toks.drop_last()) + seq![' '] + toks.last()
    }
}

/// The token list of a built command: config and context first, then the
/// verb and its positional targets, then the namespace, then the flags —
/// every caller-supplied token rendered shell-safe.
pub open spec fn spec_command_tokens(
    cfg: Seq<char>,
    ctx: Seq<char>,
    verb: Seq<char>,
    positionals: Seq<Seq<char>>,
    namespace: Option<Seq<char>>,
    flags: Seq<Seq<char>>,
) -> Seq<Seq<char>> {
    seq!["--kubeconfig"@, spec_quoted(cfg), "--context"@, spec_quoted(ctx), spec_quoted(verb)]
        + positionals.map_values(quoted_fn()) + (match namespace {
        Some(ns) => seq!["-n"@, spec_quoted(ns)],
        None => Seq::empty(),
    }) + flags.map_values(quoted_fn())
}

/// The whole command line of a built command.
pub open spec fn spec_command_line(
    cfg: Seq<char>,
    ctx: Seq<char>,
    verb: Seq<char>,
    positionals: Seq<Seq<char>>,
    namespace: Option<Seq<char>>,
    flags: Seq<Seq<char>>,
) -> Seq<char> {
    spec_join_spaced(spec_command_tokens(cfg, ctx, verb, positionals, namespace, flags))
}

/// The view of an optional string.
pub open spec fn spec_opt_view(o: Option<String>) -> Option<Seq<char>> {
    match o {
        Some(s) => Some(s@),
        None => None,
    }
}

fn safe_char(c: char) -> (r: bool)
    ensures
        r == spec_safe_char(c),
{
    let u = c as u32;
    (('a' as u32) <= u && u <= ('z' as u32)) || (('A' as u32) <= u && u <= ('Z' as u32)) || (('0'
        as u32) <= u && u <= ('9' as u32)) || c == '-' || c == '_' || c == '/' || c == '.' || c
        == '=' || c == ':' || c == ',' || c == '+' || c == '@' || c == '%'
}

fn all_safe(s: &str) -> (r: bool)
    ensures
        r == spec_all_safe(s@),
{
    let n = s.unicode_len();
    let mut i: usize = 0;
    while i < n
        invariant
            n == s@.len(),
            i <= n,
            forall|j: int| 0 <= j < i ==> spec_safe_char(#[trigger] s@[j]),
        decreases n - i,
    {
        if !safe_char(s.get_char(i)) {
            return false;
        }
        i = i + 1;
    }
    true
}

/// Render one token shell-safe.
pub fn quote_arg(s: &str) -> (r: String)
    ensures
        r@ == spec_quoted(s@),
{
    let n = s.unicode_len();
    if n > 0 && all_safe(s) {
        return s.to_owned();
    }
    let mut r = String::new();
    push_char(&mut r, '\'');
    let mut i: usize = 0;
    while i < n
        invariant
            n == s@.len(),
            i <= n,
            r@ == seq!['\''] + spec_quote_body(s@.take(i as int)),
        decreases n - i,
    {
        let c = s.get_char(i);
        if c == '\'' {
            push_char(&mut r, '\'');
            push_char(&mut r, '\\');
            push_char(&mut r, '\'');
            push_char(&mut r, '\'');
        } else {
            push_char(&mut r, c);
        }
        proof {
            assert(s@.take(i + 1).drop_last() =~= s@.take(i as int));
            assert(s@.take(i + 1).last() == s@[i as int]);
            assert(r@ =~= seq!['\''] + spec_quote_body(s@.take(i + 1)));
        }
        i = i + 1;
    }
    push_char(&mut r, '\'');
    proof {
        assert(s@.take(n as int) =~= s@);
        assert(r@ =~= seq!['\''] + spec_quote_body(s@) + seq!['\'']);
    }
    r
}

/// Appending one more token to a non-empty line adds one space and the
/// token.
proof fn lemma_join_push(toks: Seq<Seq<char>>, t: Seq<char>)
    requires
        toks.len() > 0,
    ensures
        spec_join_spaced(toks.push(t)) == spec_join_spaced(toks) + seq![' '] + t,
{
    assert(toks.push(t).drop_last() =~= toks);
    assert(toks.push(t).last() == t);
}

/// Append one further token to a line that already holds its first token.
fn append_token(line: &mut String, tok: &str)
    ensures
        final(line)@ == old(line)@ + seq![' '] + tok@,
{
    line.append(" ");
    line.append(tok);
    proof {
        reveal_strlit(" ");
        assert(line@ =~= old(line)@ + seq![' '] + tok@);
    }
}

/// Build one command line. Pure: the result is a function of the arguments
/// alone, with the deterministic token order the library promises, and every
/// argument rendered shell-safe.
pub fn build_command(
    ctx: &ClusterContext,
    verb: &str,
    positionals: &Vec<String>,
    namespace: &Option<String>,
    flags: &Vec<String>,
) -> (r: TerminalCommand)
    ensures
        r@ == spec_command_line(
            ctx.config_locator@,
            ctx.context_name@,
            verb@,
            positionals.deep_view(),
            spec_opt_view(*namespace),
            flags.deep_view(),
        ),
{
    let ghost cfg = ctx.config_locator@;
    let ghost cname = ctx.context_name@;
    let mut line: String = "--kubeconfig".to_owned();
    let ghost mut toks: Seq<Seq<char>> = seq!["--kubeconfig"@];
    proof {
        assert(spec_join_spaced(toks) == toks[0]);
    }

    let q = quote_arg(ctx.config_locator.as_str());
    proof {
        lemma_join_push(toks, q@);
        toks = toks.push(q@);
    }
    append_token(&mut line, q.as_str());

    proof {
        lemma_join_push(toks, "--context"@);
        toks = toks.push("--context"@);
    }
    append_token(&mut line, "--context");

    let q = quote_arg(ctx.context_name.as_str());
    proof {
        lemma_join_push(toks, q@);
        toks = toks.push(q@);
    }
    append_token(&mut line, q.as_str());

    let q = quote_arg(verb);
    proof {
        lemma_join_push(toks, q@);
        toks = toks.push(q@);
    }
    append_token(&mut line, q.as_str());

    let ghost head = seq!["--kubeconfig"@, spec_quoted(cfg), "--context"@, spec_quoted(cname),
        spec_quoted(verb@)];
    proof {
        assert(toks =~= head);
    }

    let n = positionals.len();
    let mut i: usize = 0;
    while i < n
        invariant
            n == positionals@.len(),
            i <= n,
            line@ == spec_join_spaced(toks),
            toks.len() > 0,
            toks =~= head + positionals.deep_view().take(i as int).map_values(quoted_fn()),
        decreases n - i,
    {
        let q = quote_arg(positionals[i].as_str());
        proof {
            lemma_join_push(toks, q@);
            toks = toks.push(q@);
            assert(positionals.deep_view().take(i + 1).map_values(quoted_fn()) =~= positionals
                .deep_view().take(i as int).map_values(quoted_fn()).push(spec_quoted(
                positionals@[i as int]@,
            )));
            assert(toks =~= head + positionals.deep_view().take(i + 1).map_values(quoted_fn()));
        }
        append_token(&mut line, q.as_str());
        i = i + 1;
    }
    proof {
        assert(positionals.deep_view().take(n as int) =~= positionals.deep_view());
    }

    match namespace {
        Some(ns) => {
            proof {
                lemma_join_push(toks, "-n"@);
                toks = toks.push("-n"@);
            }
            append_token(&mut line, "-n");
            let q = quote_arg(ns.as_str());
            proof {
                lemma_join_push(toks, q@);
                toks = toks.push(q@);
            }
            append_token(&mut line, q.as_str());
        },
        None => {},
    }
    let ghost mid = head + positionals.deep_view().map_values(quoted_fn()) + (match spec_opt_view(
        *namespace,
    ) {
        Some(ns) => seq!["-n"@, spec_quoted(ns)],
        None => Seq::empty(),
    });
    proof {
        assert(toks =~= mid);
    }

    let n = flags.len();
    let mut i: usize = 0;
    while i < n
        invariant
            n == flags@.len(),
            i <= n,
            line@ == spec_join_spaced(toks),
            toks.len() > 0,
            toks =~= mid + flags.deep_view().take(i as int).map_values(quoted_fn()),
        decreases n - i,
    {
        let q = quote_arg(flags[i].as_str());
        proof {
            lemma_join_push(toks, q@);
            toks = toks.push(q@);
            assert(flags.deep_view().take(i + 1).map_values(quoted_fn()) =~= flags.deep_view()
                .take(i as int).map_values(quoted_fn()).push(spec_quoted(flags@[i as int]@)));
            assert(toks =~= mid + flags.deep_view().take(i + 1).map_values(quoted_fn()));
        }
        append_token(&mut line, q.as_str());
        i = i + 1;
    }
    proof {
        assert(flags.deep_view().take(n as int) =~= flags.deep_view());
        assert(toks =~= spec_command_tokens(
            cfg,
            cname,
            verb@,
            positionals.deep_view(),
            spec_opt_view(*namespace),
            flags.deep_view(),
        ));
    }
    TerminalCommand { line }
}

/// Law: a command built from non-empty all-safe arguments carries them
/// verbatim — quoting never rewrites a token that needs no quoting.
pub proof fn lemma_quote_safe_identity(s: Seq<char>)
    requires
        s.len() > 0,
        spec_all_safe(s),
    ensures
        spec_quoted(s) == s,
{
}

/// Prefix a sequence onto the value of a shell read, when one exists.
pub open spec fn spec_prepend(s: Seq<char>, r: Option<Seq<char>>) -> Option<Seq<char>> {
    match r {
        None => None,
        Some(t) => Some(s + t),
    }
}

/// What a POSIX shell reads one word as: safe characters stand for
/// themselves, a single quote groups everything to the next single quote, a
/// backslash outside quotes escapes the next character. `None` when the word
/// is not well-formed — an unclosed quote, a trailing backslash, or a bare
/// metacharacter.
pub open spec fn spec_shell_read(w: Seq<char>, in_quote: bool) -> Option<Seq<char>>
    decreases w.len(),
{
    if w.len() == 0 {
        if in_quote {
            None
        } else {
            Some(Seq::empty())
        }
    } else if in_quote {
        if w[0] == '\'' {
            spec_shell_read(w.drop_first(), false)
        } else {
            spec_prepend(seq![w[0]], spec_shell_read(w.drop_first(), true))
        }
    } else {
        if w[0] == '\'' {
            spec_shell_read(w.drop_first(), true)
        } else if w[0] == '\\' {
            if w.len() == 1 {
                None
            } else {
                spec_prepend(seq![w[1]], spec_shell_read(w.drop_first().drop_first(), false))
            }
        } else if spec_safe_char(w[0]) {
            spec_prepend(seq![w[0]], spec_shell_read(w.drop_first(), false))
        } else {
            None
        }
    }
}

/// The quoted body of a concatenation is the concatenation of the quoted
/// bodies.
proof fn lemma_quote_body_concat(s1: Seq<char>, s2: Seq<char>)
    ensures
        spec_quote_body(s1 + s2) == spec_quote_body(s1) + spec_quote_body(s2),
    decreases s2.len(),
{
    if s2.len() == 0 {
        assert(s1 + s2 =~= s1);
        assert(spec_quote_body(s1) + spec_quote_body(s2) =~= spec_quote_body(s1));
    } else {
        lemma_quote_body_concat(s1, s2.drop_last());
        assert((s1 + s2).drop_last() =~= s1 + s2.drop_last());
        assert((s1 + s2).last() == s2.last());
        assert(spec_quote_body(s1 + s2) =~= spec_quote_body(s1) + spec_quote_body(s2));
    }
}

/// Reading the quoted body of `s` inside quotes, followed by anything,
/// yields `s` followed by the read of the rest.
proof fn lemma_read_quote_body(s: Seq<char>, tail: Seq<char>)
    ensures
        spec_shell_read(spec_quote_body(s) + tail, true) == spec_prepend(
            s,
            spec_shell_read(tail, true),
        ),
    decreases s.len(),
{
    if s.len() == 0 {
        assert(spec_quote_body(s) + tail =~= tail);
        match spec_shell_read(tail, true) {
            None => {},
            Some(t) => {
                assert(s + t =~= t);
            },
        }
    } else {
        let c = s[0];
        let s1 = s.drop_first();
        assert(s =~= seq![c] + s1);
        lemma_quote_body_concat(seq![c], s1);
        assert(seq![c].drop_last() =~= Seq::<char>::empty());
        assert(seq![c].last() == c);
        assert(spec_quote_body(Seq::<char>::empty()) =~= Seq::<char>::empty());
        assert(spec_quote_body(seq![c]) =~= spec_escape_char(c));
        lemma_read_quote_body(s1, tail);
        let rest = spec_quote_body(s1) + tail;
        let w = spec_quote_body(s) + tail;
        assert(w =~= spec_escape_char(c) + rest);
        if c == '\'' {
            let w1 = w.drop_first();
            let w2 = w1.drop_first();
            let w3 = w2.drop_first();
            assert(w1 =~= seq!['\\', '\'', '\''] + rest);
            assert(w2 =~= seq!['\'', '\''] + rest);
            assert(w3 =~= seq!['\''] + rest);
            assert(w3.drop_first() =~= rest);
            assert(spec_shell_read(w, true) == spec_shell_read(w1, false));
            assert(spec_shell_read(w1, false) == spec_prepend(
                seq!['\''],
                spec_shell_read(w3, false),
            ));
            assert(spec_shell_read(w3, false) == spec_shell_read(rest, true));
        } else {
            assert(w.drop_first() =~= rest);
            assert(spec_shell_read(w, true) == spec_prepend(
                seq![c],
                spec_shell_read(rest, true),
            ));
        }
        match spec_shell_read(tail, true) {
            None => {},
            Some(t) => {
                assert(seq![c] + (s1 + t) =~= s + t);
            },
        }
    }
}

/// A non-empty all-safe token reads as itself.
proof fn lemma_read_safe(s: Seq<char>)
    requires
        spec_all_safe(s),
    ensures
        spec_shell_read(s, false) == Some(s),
    decreases s.len(),
{
    if s.len() > 0 {
        assert(spec_safe_char(s[0]));
        assert(spec_all_safe(s.drop_first()));
        lemma_read_safe(s.drop_first());
        assert(seq![s[0]] + s.drop_first() =~= s);
    }
}

/// Law: the shell reads every quoted token back as exactly the original
/// argument — quoting loses nothing, injects nothing, and yields a
/// well-formed word whatever spaces or metacharacters the argument holds.
pub proof fn lemma_quoting_round_trip(s: Seq<char>)
    ensures
        spec_shell_read(spec_quoted(s), false) == Some(s),
{
    if s.len() > 0 && spec_all_safe(s) {
        lemma_read_safe(s);
    } else {
        lemma_read_quote_body(s, seq!['\'']);
        let q = spec_quoted(s);
        assert(q =~= seq!['\''] + (spec_quote_body(s) + seq!['\'']));
        assert(q.drop_first() =~= spec_quote_body(s) + seq!['\'']);
        assert(spec_shell_read(q, false) == spec_shell_read(
            spec_quote_body(s) + seq!['\''],
            true,
        ));
        assert(seq!['\''].drop_first() =~= Seq::<char>::empty());
        assert(spec_shell_read(Seq::<char>::empty(), false) == Some(Seq::<char>::empty()));
        assert(spec_shell_read(seq!['\''], true) == Some(Seq::<char>::empty()));
        assert(s + Seq::<char>::empty() =~= s);
    }
}

} // verus!
