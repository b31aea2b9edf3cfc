use vstd::prelude::*;
use vstd::string::StringExecFns;

use crate::shared::config::RedisConfig;
use crate::shared::error::{AppError, AppResult};

pub mod model;

verus! {

/// `redis::Client`: where a session store is and how to log in to it. It
/// holds no connection.
#[verifier::external_type_specification]
#[verifier::external_body]
pub struct ExClient(::redis::Client);

/// The client that the store's crate makes of a URL, or `None` where it
/// refuses the URL, as it does one that is no URL, one of a scheme that is
/// not the store's, and one that names no host or the wildcard address.
pub uninterp spec fn client_for(url: Seq<char>) -> Option<::redis::Client>;

/// `redis::Client::open` on a string: parses the URL and opens no
/// connection. It succeeds exactly where the crate makes a client of the
/// URL, and with that client.
#[verifier::external_body]
fn open_client(url: String) -> (opened: Result<::redis::Client, ::redis::RedisError>)
    ensures
        opened is Ok <==> client_for(url@) is Some,
        opened matches Ok(client) ==> client_for(url@) == Some(client),
{
    ::redis::Client::open(url)
}

/// The character that writes the digit `d`.
pub open spec fn digit(d: nat) -> char
    recommends
        d < 10,
{
    if d == 0 {
        '0'
    } else if d == 1 {
        '1'
    } else if d == 2 {
        '2'
    } else if d == 3 {
        '3'
    } else if d == 4 {
        '4'
    } else if d == 5 {
        '5'
    } else if d == 6 {
        '6'
    } else if d == 7 {
        '7'
    } else if d == 8 {
        '8'
    } else {
        '9'
    }
}

/// The number `n` written in decimal, without leading zeros.
pub open spec fn decimal(n: nat) -> Seq<char>
    decreases n,
{
    if n < 10 {
        seq![digit(n)]
    } else {
        decimal(n / 10).push(digit(n % 10))
    }
}

/// The digit that a character writes; 0 for a character that writes none.
pub open spec fn digit_value(c: char) -> nat {
    if c == '1' {
        1
    } else if c == '2' {
        2
    } else if c == '3' {
        3
    } else if c == '4' {
        4
    } else if c == '5' {
        5
    } else if c == '6' {
        6
    } else if c == '7' {
        7
    } else if c == '8' {
        8
    } else if c == '9' {
        9
    } else {
        0
    }
}

/// The number that a row of digits writes in decimal.
pub open spec fn number_written(digits: Seq<char>) -> nat
    decreases digits.len(),
{
    if digits.len() == 0 {
        0
    } else {
        number_written(digits.drop_last()) * 10 + digit_value(digits.last())
    }
}

/// What `decimal` writes reads back as the number written. It is never
/// empty, and but for the number 0 it does not start with a zero.
pub proof fn lemma_decimal_writes_the_number(n: nat)
    ensures
        number_written(decimal(n)) == n,
        decimal(n).len() >= 1,
        n > 0 ==> decimal(n)[0] != '0',
    decreases n,
{
    if n < 10 {
        assert(decimal(n).drop_last().len() == 0);
        assert(number_written(decimal(n).drop_last()) == 0);
    } else {
        lemma_decimal_writes_the_number(n / 10);
        assert(decimal(n).drop_last() =~= decimal(n / 10));
        assert(decimal(n)[0] == decimal(n / 10)[0]);
    }
}

/// The URL of the session store at `host` and `port`.
pub open spec fn store_url(host: Seq<char>, port: u16) -> Seq<char> {
    "redis://"@ + host + ":"@ + decimal(port as nat)
}

fn digit_text(d: u16) -> (text: &'static str)
    requires
        d < 10,
    ensures
        text@ == seq![digit(d as nat)],
{
    proof {
        reveal_strlit("0");
        reveal_strlit("1");
        reveal_strlit("2");
        reveal_strlit("3");
        reveal_strlit("4");
        reveal_strlit("5");
        reveal_strlit("6");
        reveal_strlit("7");
        reveal_strlit("8");
        reveal_strlit("9");
    }
    let text = match d {
        0 => "0",
        1 => "1",
        2 => "2",
        3 => "3",
        4 => "4",
        5 => "5",
        6 => "6",
        7 => "7",
        8 => "8",
        _ => "9",
    };
    assert(text@ =~= seq![digit(d as nat)]);
    text
}

fn append_decimal(text: &mut String, n: u16)
    ensures
        final(text)@ == old(text)@ + decimal(n as nat),
    decreases n,
{
    if n >= 10 {
        append_decimal(text, n / 10);
    }
    text.append(digit_text(n % 10));
    assert(final(text)@ =~= old(text)@ + decimal(n as nat));
}

/// Writes the URL of the session store that `config` names:
/// `redis://`, the host, a colon and the port in decimal.
pub fn redis_url(config: &RedisConfig) -> (url: String)
    ensures
        url@ == store_url(config.host@, config.port),
{
    let mut url = String::from_str("redis://");
    url.append(config.host.as_str());
    url.append(":");
    append_decimal(&mut url, config.port);
    url
}

/// The client of the session store.
pub struct RedisClient {
    client: ::redis::Client,
}

impl RedisClient {
    /// The store's own client inside.
    pub closed spec fn inner(self) -> ::redis::Client {
        self.client
    }

    /// Makes the client of the session store that `config` names. No
    /// connection is opened. It fails, with the store crate's error, exactly
    /// where that crate refuses the store's URL.
    pub fn new(config: &RedisConfig) -> (made: AppResult<Self>)
        ensures
            match client_for(store_url(config.host@, config.port)) {
                Some(client) => made matches Ok(made) && made.inner() == client,
                None => made matches Err(AppError::KeyValueStoreError(_)),
            },
    {
        RedisClient::opened(open_client(redis_url(config)))
    }

    /// Takes what opening a client came to: the client, wrapped, or the
    /// store crate's error as an error of this service.
    pub fn opened(opened: Result<::redis::Client, ::redis::RedisError>) -> (made: AppResult<Self>)
        ensures
            match opened {
                Ok(client) => made matches Ok(made) && made.inner() == client,
                Err(error) => made matches Err(AppError::KeyValueStoreError(e)) && e == error,
            },
    {
        match opened {
            Ok(client) => Ok(RedisClient { client }),
            Err(error) => Err(AppError::from(error)),
        }
    }

    /// The store's own client, for opening connections.
    pub fn client(&self) -> (client: &::redis::Client)
        ensures
            *client == self.inner(),
    {
        &self.client
    }
}

} // verus!
