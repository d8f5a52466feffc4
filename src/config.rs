use vstd::prelude::*;

verus! {

/// The fixed scheme that every connection string starts with.
pub open spec fn scheme_text() -> Seq<char> {
    seq!['p', 'o', 's', 't', 'g', 'r', 'e', 's', 'q', 'l', ':', '/', '/']
}

/// The host that stands in the string when the configuration names none.
pub open spec fn default_host() -> Seq<char> {
    seq!['l', 'o', 'c', 'a', 'l', 'h', 'o', 's', 't']
}

/// The query key that introduces the application name.
pub open spec fn application_key() -> Seq<char> {
    seq![
        'a', 'p', 'p', 'l', 'i', 'c', 'a', 't', 'i', 'o', 'n', '_', 'n', 'a', 'm', 'e', '=',
    ]
}

/// The character of a decimal digit.
pub open spec fn digit_char(d: nat) -> char {
    if d == 0 { '0' }
    else if d == 1 { '1' }
    else if d == 2 { '2' }
    else if d == 3 { '3' }
    else if d == 4 { '4' }
    else if d == 5 { '5' }
    else if d == 6 { '6' }
    else if d == 7 { '7' }
    else if d == 8 { '8' }
    else { '9' }
}

/// The decimal form of a number, without leading zeros.
pub open spec fn decimal(n: nat) -> Seq<char>
    decreases n,
{
    if n < 10 {
        seq![digit_char(n)]
    } else {
        decimal(n / 10).push(digit_char(n % 10))
    }
}

/// The text of an optional field, empty when the field is absent.
pub open spec fn text_or_empty(o: Option<String>) -> Seq<char> {
    match o {
        Some(s) => s@,
        None => Seq::empty(),
    }
}

/// A template of optional connection parameters.
///
/// The password is carried for the driver's other channels but is never
/// written into the rendered connection string.
#[derive(Clone, Debug)]
pub struct PostgresConnectionConfig {
    pub user: Option<String>,
    pub password: Option<String>,
    pub host: Option<String>,
    pub port: Option<u16>,
    pub database: Option<String>,
    pub application_name: Option<String>,
}

impl PostgresConnectionConfig {
    /// The host as it stands in the string: the configured one, else `localhost`.
    pub open spec fn host_text(self) -> Seq<char> {
        match self.host {
            Some(h) => h@,
            None => default_host(),
        }
    }

    /// `user@`, or nothing when the user is absent or empty.
    pub open spec fn user_part(self) -> Seq<char> {
        let u = text_or_empty(self.user);
        if u.len() == 0 { Seq::empty() } else { u.push('@') }
    }

    /// `:port`, or nothing when the port is absent.
    pub open spec fn port_part(self) -> Seq<char> {
        match self.port {
            Some(p) => seq![':'] + decimal(p as nat),
            None => Seq::empty(),
        }
    }

    /// `/database`, or nothing when the database is absent or empty.
    pub open spec fn database_part(self) -> Seq<char> {
        let d = text_or_empty(self.database);
        if d.len() == 0 { Seq::empty() } else { seq!['/'] + d }
    }

    /// `?application_name=name`, or nothing when the name is absent or empty.
    pub open spec fn application_part(self) -> Seq<char> {
        let a = text_or_empty(self.application_name);
        if a.len() == 0 { Seq::empty() } else { seq!['?'] + application_key() + a }
    }

    /// The same template with the host and port of one backend filled in.
    pub open spec fn with_backend(self, address: String, port: u16) -> PostgresConnectionConfig {
        PostgresConnectionConfig {
            user: self.user,
            password: self.password,
            host: Some(address),
            port: Some(port),
            database: self.database,
            application_name: self.application_name,
        }
    }

    /// The connection string
    /// `postgresql://[user@]host[:port][/database][?application_name=name]`.
    pub open spec fn rendered(self) -> Seq<char> {
        scheme_text() + self.user_part() + self.host_text() + self.port_part()
            + self.database_part() + self.application_part()
    }
}

/// The one-character text of a decimal digit.
fn digit_text(d: u16) -> (r: &'static str)
    requires
        d < 10,
    ensures
        r@ == seq![digit_char(d as nat)],
{
    proof {
        reveal_strlit("0");
        reveal_strlit("1");
        reveal_strlit("2");
        reveal_strlit("3");
        reveal_strlit("4");
        reveal_strlit("5");
        reveal_strlit("6");
        reveal_strlit("7");
        reveal_strlit("8");
        reveal_strlit("9");
    }
    if d == 0 { "0" }
    else if d == 1 { "1" }
    else if d == 2 { "2" }
    else if d == 3 { "3" }
    else if d == 4 { "4" }
    else if d == 5 { "5" }
    else if d == 6 { "6" }
    else if d == 7 { "7" }
    else if d == 8 { "8" }
    else { "9" }
}

/// Appends the decimal form of `n` to `s`.
fn append_decimal(s: &mut String, n: u16)
    ensures
        final(s)@ == old(s)@ + decimal(n as nat),
    decreases n,
{
    if n >= 10 {
        append_decimal(s, n / 10);
    }
    s.append(digit_text(n % 10));
    assert(old(s)@ + decimal(n as nat) =~= final(s)@);
}

/// Appends `prefix` and then `text` to `s` when `text` is not empty.
fn append_if_present(s: &mut String, prefix: &str, text: &Option<String>)
    ensures
        text_or_empty(*text).len() == 0 ==> final(s)@ == old(s)@,
        text_or_empty(*text).len() != 0 ==> final(s)@ == old(s)@ + prefix@ + text_or_empty(*text),
{
    match text {
        Some(t) => {
            if !t.as_str().is_empty() {
                s.append(prefix);
                s.append(t.as_str());
            }
        },
        None => {},
    }
}

impl PostgresConnectionConfig {
    /// Renders the connection string. The password is left out.
    pub fn to_url(&self) -> (r: String)
        ensures
            r@ == self.rendered(),
    {
        proof {
            reveal_strlit("postgresql://");
            reveal_strlit("localhost");
            reveal_strlit("@");
            reveal_strlit(":");
            reveal_strlit("/");
            reveal_strlit("?application_name=");
        }
        let mut s = String::from_str("postgresql://");
        match &self.user {
            Some(u) => {
                if !u.as_str().is_empty() {
                    s.append(u.as_str());
                    s.append("@");
                }
            },
            None => {},
        }
        assert(s@ =~= scheme_text() + self.user_part());
        match &self.host {
            Some(h) => s.append(h.as_str()),
            None => s.append("localhost"),
        }
        match self.port {
            Some(p) => {
                s.append(":");
                append_decimal(&mut s, p);
            },
            None => {},
        }
        assert(s@ =~= scheme_text() + self.user_part() + self.host_text() + self.port_part());
        append_if_present(&mut s, "/", &self.database);
        assert(s@ =~= scheme_text() + self.user_part() + self.host_text() + self.port_part()
            + self.database_part());
        append_if_present(&mut s, "?application_name=", &self.application_name);
        assert(s@ =~= self.rendered());
        s
    }
}

/// The host in a connection string is `localhost` when the configuration
/// names no host, and the configured host otherwise, for every configuration.
pub proof fn lemma_host_default(c: PostgresConnectionConfig)
    ensures
        c.host is None ==> c.host_text() == default_host(),
        c.host is Some ==> c.host_text() == c.host->0@,
        c.rendered().subrange(
            (scheme_text().len() + c.user_part().len()) as int,
            (scheme_text().len() + c.user_part().len() + c.host_text().len()) as int,
        ) == c.host_text(),
{
    let start = (scheme_text().len() + c.user_part().len()) as int;
    assert(c.rendered().subrange(start, start + c.host_text().len()) =~= c.host_text());
}

impl From<PostgresConnectionConfig> for String {
    /// Renders the connection string, as `to_url` does.
    fn from(config: PostgresConnectionConfig) -> (r: String)
        ensures
            r@ == config.rendered(),
    {
        config.to_url()
    }
}

/// The text of the result is stated by `from` itself (`r@ == config.rendered()`).
/// Two strings with one view need not be one value to Verus, so no single
/// `String` value is named here.
impl vstd::std_specs::convert::FromSpecImpl<PostgresConnectionConfig> for String {
    open spec fn obeys_from_spec() -> bool {
        false
    }

    open spec fn from_spec(config: PostgresConnectionConfig) -> String {
        arbitrary()
    }
}

} // verus!
