use vstd::prelude::*;
use vstd::string::*;

verus! {

/// The static configuration record of the proxy.
#[derive(Debug)]
pub struct App {
    pub server: String,
    pub server_port: u16,
    pub local_address: String,
    pub local_port: u16,
    pub username: String,
    pub password: String,
    /// Connect timeout towards a destination, in seconds.
    pub timeout: u64,
    pub method: String,
}

/// The decimal digit character of `d`.
pub open spec fn digit_char(d: nat) -> char {
    if d == 0 { '0' }
    else if d == 1 { '1' }
    else if d == 2 { '2' }
    else if d == 3 { '3' }
    else if d == 4 { '4' }
    else if d == 5 { '5' }
    else if d == 6 { '6' }
    else if d == 7 { '7' }
    else if d == 8 { '8' }
    else { '9' }
}

/// The decimal notation of `n`, without leading zeros.
pub open spec fn decimal(n: nat) -> Seq<char>
    decreases n,
{
    if n < 10 {
        seq![digit_char(n)]
    } else {
        decimal(n / 10) + seq![digit_char(n % 10)]
    }
}

/// `host:port`, the port written in decimal.
pub open spec fn host_port(host: Seq<char>, port: u16) -> Seq<char> {
    host + seq![':'] + decimal(port as nat)
}

fn digit_str(d: u16) -> (r: &'static str)
    requires
        d < 10,
    ensures
        r@ == seq![digit_char(d as nat)],
{
    proof {
        reveal_strlit("0");
        reveal_strlit("1");
        reveal_strlit("2");
        reveal_strlit("3");
        reveal_strlit("4");
        reveal_strlit("5");
        reveal_strlit("6");
        reveal_strlit("7");
        reveal_strlit("8");
        reveal_strlit("9");
    }
    if d == 0 { "0" }
    else if d == 1 { "1" }
    else if d == 2 { "2" }
    else if d == 3 { "3" }
    else if d == 4 { "4" }
    else if d == 5 { "5" }
    else if d == 6 { "6" }
    else if d == 7 { "7" }
    else if d == 8 { "8" }
    else { "9" }
}

/// Appends the decimal notation of `n` to `s`.
fn push_decimal(s: &mut String, n: u16)
    ensures
        final(s)@ == old(s)@ + decimal(n as nat),
    decreases n,
{
    if n >= 10 {
        push_decimal(s, n / 10);
    }
    s.append(digit_str(n % 10));
    proof {
        if n >= 10 {
            assert(decimal(n as nat) == decimal((n / 10) as nat) + seq![digit_char((n % 10) as nat)]);
        }
    }
}

/// `host:port` as a new string.
fn join_host_port(host: &String, port: u16) -> (r: String)
    ensures
        r@ == host_port(host@, port),
{
    let mut r = host.clone();
    r.append(":");
    proof {
        reveal_strlit(":");
    }
    push_decimal(&mut r, port);
    r
}

impl App {
    /// The address the proxy server listens on, as `server:server_port`.
    pub fn full_server(&self) -> (r: String)
        ensures
            r@ == host_port(self.server@, self.server_port),
    {
        join_host_port(&self.server, self.server_port)
    }

    /// The address the local forwarder listens on, as `local_address:local_port`.
    pub fn full_local(&self) -> (r: String)
        ensures
            r@ == host_port(self.local_address@, self.local_port),
    {
        join_host_port(&self.local_address, self.local_port)
    }
}

} // verus!
