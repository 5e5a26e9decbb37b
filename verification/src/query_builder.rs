//! The statement renderer.
//!
//! `TursoQueryBuilder` accumulates dialect-correct SQL text: raw fragments,
//! identifiers quoted with a backtick delimiter (any embedded delimiter is
//! doubled), and `?` bind placeholders. The module also defines the
//! placeholder count of a piece of SQL text — a `?` inside a quoted
//! identifier is not a placeholder — which the clause renderers use to state
//! that they emit exactly one placeholder per collected bind value.

use vstd::prelude::*;
use vstd::string::StrSliceExecFns;
use vstd::string::StringExecFns;

verus! {

/// The rendering of one identifier character: the quote delimiter is
/// doubled, every other character stands as itself.
pub open spec fn escaped_char(c: char) -> Seq<char> {
    if c == '`' {
        seq!['`', '`']
    } else {
        seq![c]
    }
}

/// The body of a quoted identifier: each character rendered by
/// `escaped_char`, in order.
pub open spec fn escape_ident(s: Seq<char>) -> Seq<char>
    decreases s.len(),
{
    if s.len() == 0 {
        Seq::empty()
    } else {
        escaped_char(s[0]) + escape_ident(s.skip(1))
    }
}

/// A complete quoted identifier: the escaped body between two delimiters.
pub open spec fn quoted_ident(s: Seq<char>) -> Seq<char> {
    seq!['`'] + escape_ident(s) + seq!['`']
}

/// Reading a quoted identifier's body back: a doubled delimiter yields one
/// delimiter, everything else yields itself. A trailing unpaired delimiter
/// cannot arise from `escape_ident` and is dropped.
pub open spec fn unescape_ident(s: Seq<char>) -> Seq<char>
    decreases s.len(),
{
    if s.len() == 0 {
        Seq::empty()
    } else if s[0] == '`' {
        if s.len() >= 2 && s[1] == '`' {
            seq!['`'] + unescape_ident(s.skip(2))
        } else {
            unescape_ident(s.skip(1))
        }
    } else {
        seq![s[0]] + unescape_ident(s.skip(1))
    }
}

/// Escaping appends one rendered character at a time.
proof fn lemma_escape_push(s: Seq<char>, c: char)
    ensures
        escape_ident(s.push(c)) == escape_ident(s) + escaped_char(c),
    decreases s.len(),
{
    reveal_with_fuel(escape_ident, 3);
    if s.len() == 0 {
        assert(s.push(c).skip(1) =~= Seq::<char>::empty());
        assert(escape_ident(s.push(c)) =~= escape_ident(s) + escaped_char(c));
    } else {
        assert(s.push(c).skip(1) =~= s.skip(1).push(c));
        lemma_escape_push(s.skip(1), c);
        assert(escape_ident(s.push(c)) =~= escape_ident(s) + escaped_char(c));
    }
}

/// Identifier escaping round-trips: reading the escaped body back recovers
/// the original name, for every name.
pub proof fn lemma_escape_round_trip(s: Seq<char>)
    ensures
        unescape_ident(escape_ident(s)) == s,
    decreases s.len(),
{
    if s.len() == 0 {
    } else {
        lemma_escape_round_trip(s.skip(1));
        if s[0] == '`' {
            assert(escape_ident(s).skip(2) =~= escape_ident(s.skip(1)));
            assert(unescape_ident(escape_ident(s)) =~= s);
        } else {
            assert(escape_ident(s).skip(1) =~= escape_ident(s.skip(1)));
            assert(unescape_ident(escape_ident(s)) =~= s);
        }
    }
}

/// The number of bind placeholders in `s`, scanning with the given
/// in-quoted-identifier state: a backtick toggles the state, and a `?` is
/// counted only outside quoted identifiers.
pub open spec fn placeholders_from(s: Seq<char>, inside_ident: bool) -> nat
    decreases s.len(),
{
    if s.len() == 0 {
        0
    } else {
        let here: nat = if s[0] == '?' && !inside_ident {
            1
        } else {
            0
        };
        let next_state = if s[0] == '`' {
            !inside_ident
        } else {
            inside_ident
        };
        here + placeholders_from(s.skip(1), next_state)
    }
}

/// The in-quoted-identifier state after scanning `s` from the given state.
pub open spec fn ident_state_after(s: Seq<char>, inside_ident: bool) -> bool
    decreases s.len(),
{
    if s.len() == 0 {
        inside_ident
    } else {
        let next_state = if s[0] == '`' {
            !inside_ident
        } else {
            inside_ident
        };
        ident_state_after(s.skip(1), next_state)
    }
}

/// The number of bind placeholders in a complete piece of SQL text.
pub open spec fn placeholder_count(s: Seq<char>) -> nat {
    placeholders_from(s, false)
}

/// Placeholder counting distributes over concatenation, threading the
/// quoting state through the boundary.
pub proof fn lemma_placeholders_concat(a: Seq<char>, b: Seq<char>, q: bool)
    ensures
        placeholders_from(a + b, q) == placeholders_from(a, q) + placeholders_from(
            b,
            ident_state_after(a, q),
        ),
        ident_state_after(a + b, q) == ident_state_after(b, ident_state_after(a, q)),
    decreases a.len(),
{
    if a.len() == 0 {
        assert(a + b =~= b);
    } else {
        assert((a + b).skip(1) =~= a.skip(1) + b);
        let next_state = if a[0] == '`' {
            !q
        } else {
            q
        };
        lemma_placeholders_concat(a.skip(1), b, next_state);
    }
}

/// A fragment with no `?` and no backtick contributes no placeholders and
/// leaves the quoting state as it was.
pub proof fn lemma_placeholders_plain(s: Seq<char>, q: bool)
    requires
        forall|i: int| 0 <= i < s.len() ==> s[i] != '?' && s[i] != '`',
    ensures
        placeholders_from(s, q) == 0,
        ident_state_after(s, q) == q,
    decreases s.len(),
{
    if s.len() == 0 {
    } else {
        assert(forall|i: int| 0 <= i < s.skip(1).len() ==> s.skip(1)[i] != '?' && s.skip(1)[i] != '`');
        lemma_placeholders_plain(s.skip(1), q);
    }
}

/// An escaped identifier body, scanned from inside the quotes, contributes
/// no placeholders and ends still inside the quotes: each doubled delimiter
/// toggles the state twice, and every other character is scanned inside.
proof fn lemma_escape_no_placeholders(s: Seq<char>)
    ensures
        placeholders_from(escape_ident(s), true) == 0,
        ident_state_after(escape_ident(s), true) == true,
    decreases s.len(),
{
    if s.len() == 0 {
    } else {
        lemma_escape_no_placeholders(s.skip(1));
        lemma_placeholders_concat(escaped_char(s[0]), escape_ident(s.skip(1)), true);
        assert(placeholders_from(escaped_char(s[0]), true) == 0 && ident_state_after(
            escaped_char(s[0]),
            true,
        ) == true) by {
            reveal_with_fuel(placeholders_from, 3);
            reveal_with_fuel(ident_state_after, 3);
            if s[0] == '`' {
                assert(escaped_char(s[0]).skip(1) =~= seq!['`']);
                assert(seq!['`'].skip(1) =~= Seq::<char>::empty());
            } else {
                assert(escaped_char(s[0]).skip(1) =~= Seq::<char>::empty());
            }
        }
    }
}

/// A complete quoted identifier contributes no placeholders, whatever the
/// name contains, and leaves the scan outside quotes.
pub proof fn lemma_quoted_ident_no_placeholders(s: Seq<char>)
    ensures
        placeholders_from(quoted_ident(s), false) == 0,
        ident_state_after(quoted_ident(s), false) == false,
{
    reveal_with_fuel(placeholders_from, 3);
    reveal_with_fuel(ident_state_after, 3);
    lemma_escape_no_placeholders(s);
    lemma_placeholders_concat(seq!['`'], escape_ident(s) + seq!['`'], false);
    lemma_placeholders_concat(escape_ident(s), seq!['`'], true);
    assert(seq!['`'].skip(1) =~= Seq::<char>::empty());
    assert(quoted_ident(s) =~= seq!['`'] + (escape_ident(s) + seq!['`']));
}

/// Reads a quoted identifier's body back, undoing the escaping: the inverse
/// of the rendering done by `push_identifier`, without the outer delimiters.
pub fn unescape_identifier(fragment: &str) -> (r: String)
    ensures
        r@ == unescape_ident(fragment@),
{
    let n = fragment.unicode_len();
    let mut out = String::new();
    let mut i: usize = 0;
    proof {
        assert(fragment@.skip(0) =~= fragment@);
    }
    while i < n
        invariant
            n == fragment@.len(),
            i <= n,
            unescape_ident(fragment@) == out@ + unescape_ident(fragment@.skip(i as int)),
        decreases n - i,
    {
        let ghost rest = fragment@.skip(i as int);
        let c = fragment.get_char(i);
        proof {
            assert(rest[0] == fragment@[i as int]);
        }
        if c == '`' {
            let doubled = if i + 1 < n {
                fragment.get_char(i + 1) == '`'
            } else {
                false
            };
            proof {
                if i + 1 < n {
                    assert(rest[1] == fragment@[i as int + 1]);
                }
            }
            if doubled {
                out.push('`');
                proof {
                    assert(rest.skip(2) =~= fragment@.skip(i as int + 2));
                    assert(out@ + (seq!['`'] + unescape_ident(rest.skip(2))) =~= out@.push('`')
                        + unescape_ident(rest.skip(2)));
                }
                i = i + 2;
            } else {
                proof {
                    assert(rest.skip(1) =~= fragment@.skip(i as int + 1));
                }
                i = i + 1;
            }
        } else {
            out.push(c);
            proof {
                assert(rest.skip(1) =~= fragment@.skip(i as int + 1));
                assert(out@ + (seq![rest[0]] + unescape_ident(rest.skip(1))) =~= out@.push(c)
                    + unescape_ident(rest.skip(1)));
            }
            i = i + 1;
        }
    }
    proof {
        assert(fragment@.skip(n as int) =~= Seq::<char>::empty());
        assert(out@ + Seq::<char>::empty() =~= out@);
    }
    out
}

/// Constructs SQL queries for the backend by accumulating text.
pub struct TursoQueryBuilder {
    sql: String,
}

impl View for TursoQueryBuilder {
    type V = Seq<char>;

    closed spec fn view(&self) -> Seq<char> {
        self.sql@
    }
}

impl TursoQueryBuilder {
    /// Construct a new query builder with an empty query.
    pub fn new() -> (r: Self)
        ensures
            r@ == Seq::<char>::empty(),
    {
        TursoQueryBuilder { sql: String::new() }
    }

    /// Appends a raw piece of SQL text.
    pub fn push_sql(&mut self, sql: &str)
        ensures
            final(self)@ == old(self)@ + sql@,
    {
        self.sql.append(sql);
    }

    /// Appends the identifier, quoted with the backtick delimiter and with
    /// every embedded delimiter doubled, so that identifiers containing the
    /// delimiter round-trip safely.
    pub fn push_identifier(&mut self, identifier: &str)
        ensures
            final(self)@ == old(self)@ + quoted_ident(identifier@),
    {
        let ghost sql0 = self.sql@;
        self.sql.push('`');
        let n = identifier.unicode_len();
        let mut i: usize = 0;
        while i < n
            invariant
                i <= n,
                n == identifier@.len(),
                self.sql@ == sql0 + seq!['`'] + escape_ident(identifier@.subrange(0, i as int)),
            decreases n - i,
        {
            let c = identifier.get_char(i);
            if c == '`' {
                self.sql.push('`');
                self.sql.push('`');
            } else {
                self.sql.push(c);
            }
            proof {
                lemma_escape_push(identifier@.subrange(0, i as int), identifier@[i as int]);
                assert(identifier@.subrange(0, i as int).push(identifier@[i as int])
                    =~= identifier@.subrange(0, i + 1 as int));
                assert(self.sql@ =~= sql0 + seq!['`'] + escape_ident(
                    identifier@.subrange(0, i + 1 as int),
                ));
            }
            i = i + 1;
        }
        self.sql.push('`');
        proof {
            assert(identifier@.subrange(0, n as int) =~= identifier@);
            assert(self.sql@ =~= sql0 + quoted_ident(identifier@));
        }
    }

    /// Appends one bind placeholder.
    pub fn push_bind_param(&mut self)
        ensures
            final(self)@ == old(self)@ + seq!['?'],
    {
        self.push_sql("?");
        proof {
            reveal_strlit("?");
            assert(old(self)@ + "?"@ =~= old(self)@ + seq!['?']);
        }
    }

    /// The accumulated SQL text.
    pub fn finish(self) -> (r: String)
        ensures
            r@ == self@,
    {
        self.sql
    }
}

impl Default for TursoQueryBuilder {
    fn default() -> (r: Self)
        ensures
            r@ == Seq::<char>::empty(),
    {
        TursoQueryBuilder::new()
    }
}

} // verus!
