use vstd::prelude::*;

use crate::config::{
    application_key, decimal, digit_char, scheme_text, text_or_empty,
    PostgresConnectionConfig,
};

verus! {

/// `s` holds no `c`.
pub open spec fn lacks(s: Seq<char>, c: char) -> bool {
    forall|i: int| 0 <= i < s.len() ==> s[i] != c
}

/// `s` holds none of the separators of a connection string.
pub open spec fn plain_text(s: Seq<char>) -> bool {
    lacks(s, '@') && lacks(s, ':') && lacks(s, '/') && lacks(s, '?')
}

/// The position of the first `c` in `s`, or the length of `s` when there is none.
pub open spec fn first_index(s: Seq<char>, c: char) -> int
    decreases s.len(),
{
    if s.len() == 0 {
        0
    } else if s[0] == c {
        0
    } else {
        1 + first_index(s.subrange(1, s.len() as int), c)
    }
}

/// `s` holds a `c`.
pub open spec fn holds_char(s: Seq<char>, c: char) -> bool {
    first_index(s, c) < s.len()
}

/// What stands before the first `c` of `s`.
pub open spec fn before(s: Seq<char>, c: char) -> Seq<char> {
    s.take(first_index(s, c))
}

/// What stands after the first `c` of `s`.
pub open spec fn after(s: Seq<char>, c: char) -> Seq<char> {
    s.skip(first_index(s, c) + 1)
}

/// The value of a decimal digit character.
pub open spec fn digit_value(c: char) -> nat {
    if c == '1' { 1 }
    else if c == '2' { 2 }
    else if c == '3' { 3 }
    else if c == '4' { 4 }
    else if c == '5' { 5 }
    else if c == '6' { 6 }
    else if c == '7' { 7 }
    else if c == '8' { 8 }
    else if c == '9' { 9 }
    else { 0 }
}

/// The number that a string of decimal digits denotes.
pub open spec fn decimal_value(s: Seq<char>) -> nat
    decreases s.len(),
{
    if s.len() == 0 {
        0
    } else {
        decimal_value(s.drop_last()) * 10 + digit_value(s.last())
    }
}

/// The fields that a connection string carries.
pub struct UrlFields {
    pub user: Seq<char>,
    pub host: Seq<char>,
    pub port: Option<nat>,
    pub database: Seq<char>,
    pub application_name: Seq<char>,
}

/// Splits `s` at its first `c`: what stands before it, and what stands
/// after it if there is a `c` at all.
pub open spec fn split_first(s: Seq<char>, c: char) -> (Seq<char>, Option<Seq<char>>) {
    if holds_char(s, c) {
        (before(s, c), Some(after(s, c)))
    } else {
        (s, None)
    }
}

/// Reads the fields back out of
/// `postgresql://[user@]host[:port][/database][?application_name=name]`,
/// splitting at the first `?`, then the first `/`, `@` and `:`.
pub open spec fn parse_url(s: Seq<char>) -> UrlFields {
    let (r1, query) = split_first(s.skip(scheme_text().len() as int), '?');
    let (r2, database) = split_first(r1, '/');
    let (left, right) = split_first(r2, '@');
    let (user, r3) = match right {
        Some(r) => (left, r),
        None => (Seq::empty(), left),
    };
    let (host, port) = split_first(r3, ':');
    UrlFields {
        user,
        host,
        port: match port {
            Some(p) => Some(decimal_value(p)),
            None => None,
        },
        database: match database {
            Some(d) => d,
            None => Seq::empty(),
        },
        application_name: match query {
            Some(q) => q.skip(application_key().len() as int),
            None => Seq::empty(),
        },
    }
}

/// The fields of a configuration as its connection string carries them.
pub open spec fn expected_fields(c: PostgresConnectionConfig) -> UrlFields {
    UrlFields {
        user: text_or_empty(c.user),
        host: c.host_text(),
        port: match c.port {
            Some(p) => Some(p as nat),
            None => None,
        },
        database: text_or_empty(c.database),
        application_name: text_or_empty(c.application_name),
    }
}

proof fn lemma_first_index_past(x: Seq<char>, y: Seq<char>, c: char)
    requires
        lacks(x, c),
    ensures
        first_index(x + y, c) == x.len() + first_index(y, c),
    decreases x.len(),
{
    if x.len() == 0 {
        assert(x + y =~= y);
    } else {
        let t = x.subrange(1, x.len() as int);
        assert((x + y)[0] == x[0]);
        assert((x + y).subrange(1, (x + y).len() as int) =~= t + y);
        lemma_first_index_past(t, y, c);
    }
}

/// Splitting `x + y` at its first `c`, where `x` holds none and `y` is empty
/// or starts with `c`.
proof fn lemma_split(x: Seq<char>, y: Seq<char>, c: char)
    requires
        lacks(x, c),
        y.len() == 0 || y[0] == c,
    ensures
        split_first(x + y, c) == (if y.len() == 0 {
            (x, None)
        } else {
            (x, Some(y.skip(1)))
        }),
{
    lemma_first_index_past(x, y, c);
    if y.len() == 0 {
        assert(x + y =~= x);
    } else {
        assert((x + y).take(x.len() as int) =~= x);
        assert((x + y).skip(x.len() as int + 1) =~= y.skip(1));
    }
}

proof fn lemma_lacks_concat(x: Seq<char>, y: Seq<char>, c: char)
    requires
        lacks(x, c),
        lacks(y, c),
    ensures
        lacks(x + y, c),
{
    assert forall|i: int| 0 <= i < (x + y).len() implies (x + y)[i] != c by {
        if i >= x.len() {
            assert((x + y)[i] == y[i - x.len()]);
        }
    }
}

proof fn lemma_digit(d: nat)
    requires
        d < 10,
    ensures
        digit_value(digit_char(d)) == d,
        plain_text(seq![digit_char(d)]),
{
    let s = seq![digit_char(d)];
    assert(s.len() == 1 && s[0] == digit_char(d));
}

proof fn lemma_decimal_digits(n: nat)
    ensures
        plain_text(decimal(n)),
        decimal(n).len() > 0,
        decimal_value(decimal(n)) == n,
    decreases n,
{
    if n < 10 {
        lemma_digit(n);
        let d = decimal(n);
        assert(d.drop_last() =~= Seq::<char>::empty());
        assert(decimal_value(d) == decimal_value(d.drop_last()) * 10 + digit_value(d.last()));
    } else {
        lemma_digit(n % 10);
        lemma_decimal_digits(n / 10);
        let d = decimal(n);
        assert(d.drop_last() =~= decimal(n / 10));
        assert(d.last() == digit_char(n % 10));
        assert(decimal_value(d) == decimal_value(d.drop_last()) * 10 + digit_value(d.last()));
        assert(n == (n / 10) * 10 + n % 10);
        assert forall|c: char|
            c == '@' || c == ':' || c == '/' || c == '?' implies #[trigger] lacks(d, c) by {
            assert forall|i: int| 0 <= i < d.len() implies d[i] != c by {
                if i < d.len() - 1 {
                    assert(d[i] == decimal(n / 10)[i]);
                }
            }
        }
    }
}

/// Re-parsing a rendered connection string gives back each field that was
/// set, with the default host where none was, as long as the user, host and
/// database hold none of the separators `@`, `:`, `/` and `?` (the name of
/// the application may hold anything). So no separator is doubled or lost.
pub proof fn lemma_render_round_trip(c: PostgresConnectionConfig)
    requires
        plain_text(text_or_empty(c.user)),
        plain_text(c.host_text()),
        plain_text(text_or_empty(c.database)),
    ensures
        parse_url(c.rendered()) == expected_fields(c),
{
    let user = text_or_empty(c.user);
    let host = c.host_text();
    let database = text_or_empty(c.database);
    let app = text_or_empty(c.application_name);
    let up = c.user_part();
    let pp = c.port_part();
    let dp = c.database_part();
    let ap = c.application_part();
    let digits = match c.port {
        Some(p) => decimal(p as nat),
        None => Seq::empty(),
    };
    if let Some(p) = c.port {
        lemma_decimal_digits(p as nat);
        assert(pp =~= seq![':'] + digits);
    } else {
        assert(pp =~= Seq::<char>::empty());
    }
    assert(plain_text(digits));
    assert(scheme_text().len() == 13);
    assert(application_key().len() == 17);

    // The user part holds no `?`, `/` or `:`, and no `@` but at its end.
    assert(lacks(up, '?') && lacks(up, '/') && lacks(up, ':')) by {
        if user.len() > 0 {
            assert(up =~= user + seq!['@']);
            lemma_lacks_concat(user, seq!['@'], '?');
            lemma_lacks_concat(user, seq!['@'], '/');
            lemma_lacks_concat(user, seq!['@'], ':');
        }
    }
    assert(lacks(pp, '?') && lacks(pp, '/') && lacks(pp, '@')) by {
        if c.port is Some {
            lemma_lacks_concat(seq![':'], digits, '?');
            lemma_lacks_concat(seq![':'], digits, '/');
            lemma_lacks_concat(seq![':'], digits, '@');
        }
    }
    assert(lacks(dp, '?')) by {
        if database.len() > 0 {
            lemma_lacks_concat(seq!['/'], database, '?');
        }
    }

    let r0 = up + host + pp + dp + ap;
    assert(c.rendered().skip(13) =~= r0);

    // Split at `?`.
    let r1 = up + host + pp + dp;
    lemma_lacks_concat(up, host, '?');
    lemma_lacks_concat(up + host, pp, '?');
    lemma_lacks_concat(up + host + pp, dp, '?');
    lemma_split(r1, ap, '?');
    if app.len() > 0 {
        assert(ap.skip(1).skip(17) =~= app);
    } else {
        assert(ap =~= Seq::<char>::empty());
    }
    assert(split_first(r0, '?').0 == r1);

    // Split at `/`.
    let r2 = up + host + pp;
    lemma_lacks_concat(up, host, '/');
    lemma_lacks_concat(up + host, pp, '/');
    lemma_split(r2, dp, '/');
    if database.len() > 0 {
        assert(dp.skip(1) =~= database);
    } else {
        assert(dp =~= Seq::<char>::empty());
    }
    assert(split_first(r1, '/').0 == r2);

    // Split at `@`.
    let r3 = host + pp;
    lemma_lacks_concat(host, pp, '@');
    if user.len() > 0 {
        assert(r2 =~= user + (seq!['@'] + r3));
        lemma_split(user, seq!['@'] + r3, '@');
        assert((seq!['@'] + r3).skip(1) =~= r3);
    } else {
        assert(r2 =~= r3 + Seq::<char>::empty());
        lemma_split(r3, Seq::<char>::empty(), '@');
    }

    // Split at `:`.
    lemma_split(host, pp, ':');
    if c.port is Some {
        assert(pp.skip(1) =~= digits);
    }
    assert(split_first(r3, ':').0 == host);
    assert(parse_url(c.rendered()).user == user);
    assert(parse_url(c.rendered()).host == host);
    assert(parse_url(c.rendered()).port == expected_fields(c).port);
    assert(parse_url(c.rendered()).database == database);
    assert(parse_url(c.rendered()).application_name == app);
    assert(parse_url(c.rendered()) == expected_fields(c));
}

} // verus!
