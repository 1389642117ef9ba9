//! Application configuration.
//!
//! Reading environment variables is the surrounding process's business; it
//! hands the resolved values in here. The one piece of logic is rendering
//! the full server address, which needs the port in decimal.

use vstd::prelude::*;

verus! {

/// The decimal digit character for `d`.
pub open spec fn spec_digit(d: nat) -> char {
    if d == 0 {
        '0'
    } else if d == 1 {
        '1'
    } else if d == 2 {
        '2'
    } else if d == 3 {
        '3'
    } else if d == 4 {
        '4'
    } else if d == 5 {
        '5'
    } else if d == 6 {
        '6'
    } else if d == 7 {
        '7'
    } else if d == 8 {
        '8'
    } else {
        '9'
    }
}

/// The decimal rendering of `n`, most significant digit first, with no
/// leading zeros (zero itself renders as a single digit).
pub open spec fn spec_decimal(n: nat) -> Seq<char>
    decreases n,
{
    if n < 10 {
        seq![spec_digit(n)]
    } else {
        spec_decimal(n / 10).push(spec_digit(n % 10))
    }
}

/// The one-character string for the decimal digit `d`.
fn digit_str(d: u16) -> (r: &'static str)
    requires
        d < 10,
    ensures
        r@ == seq![spec_digit(d as nat)],
{
    proof {
        reveal_strlit("0");
        reveal_strlit("1");
        reveal_strlit("2");
        reveal_strlit("3");
        reveal_strlit("4");
        reveal_strlit("5");
        reveal_strlit("6");
        reveal_strlit("7");
        reveal_strlit("8");
        reveal_strlit("9");
    }
    match d {
        0 => "0",
        1 => "1",
        2 => "2",
        3 => "3",
        4 => "4",
        5 => "5",
        6 => "6",
        7 => "7",
        8 => "8",
        _ => "9",
    }
}

/// Appends the decimal rendering of `n` to `out`.
fn push_decimal(out: &mut String, n: u16)
    ensures
        final(out)@ == old(out)@ + spec_decimal(n as nat),
    decreases n,
{
    if n >= 10 {
        push_decimal(out, n / 10);
    }
    out.append(digit_str(n % 10));
    proof {
        if n >= 10 {
            assert(old(out)@ + spec_decimal((n / 10) as nat) + seq![spec_digit((n % 10) as nat)]
                =~= old(out)@ + spec_decimal(n as nat));
        } else {
            assert(old(out)@ + seq![spec_digit(n as nat)] =~= old(out)@ + spec_decimal(n as nat));
        }
    }
}

/// Application configuration, resolved from the environment by the caller.
#[derive(Debug)]
pub struct Config {
    /// Server listen address.
    pub server_addr: String,
    /// Server listen port.
    pub server_port: u16,
    /// Path to the static files directory.
    pub static_dir: String,
}

impl Config {
    /// Bundles resolved configuration values.
    pub fn new(server_addr: String, server_port: u16, static_dir: String) -> (c: Config)
        ensures
            c.server_addr == server_addr,
            c.server_port == server_port,
            c.static_dir == static_dir,
    {
        Config { server_addr, server_port, static_dir }
    }

    /// The full server address: the listen address, a colon, and the port in
    /// decimal.
    pub fn server_url(&self) -> (r: String)
        ensures
            r@ == self.server_addr@ + seq![':'] + spec_decimal(self.server_port as nat),
    {
        let mut url = self.server_addr.clone();
        proof {
            reveal_strlit(":");
        }
        url.append(":");
        push_decimal(&mut url, self.server_port);
        proof {
            assert(self.server_addr@ + ":"@ + spec_decimal(self.server_port as nat)
                =~= self.server_addr@ + seq![':'] + spec_decimal(self.server_port as nat));
        }
        url
    }
}

} // verus!
