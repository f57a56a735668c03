use vstd::prelude::*;

verus! {

/// Settings of the WebSocket side of the pipe.
pub struct Configuration {
    /// Number of messages buffered for sending into a web socket.
    pub ws_inbound_channel_capacity: usize,
    /// Number of messages buffered from a web socket to the consumers.
    pub ws_outbound_channel_capacity: usize,
    /// Host the WebSocket listener binds to.
    pub ws_host: String,
    /// Port the WebSocket listener binds to.
    pub ws_port: u16,
}

/// The ASCII digit for `d`, which is below ten.
pub open spec fn digit_char(d: nat) -> char {
    if d == 0 { '0' }
    else if d == 1 { '1' }
    else if d == 2 { '2' }
    else if d == 3 { '3' }
    else if d == 4 { '4' }
    else if d == 5 { '5' }
    else if d == 6 { '6' }
    else if d == 7 { '7' }
    else if d == 8 { '8' }
    else { '9' }
}

/// Decimal notation of `n`, without leading zeros (`"0"` for zero).
pub open spec fn decimal(n: nat) -> Seq<char>
    decreases n,
{
    if n < 10 {
        seq![digit_char(n)]
    } else {
        decimal(n / 10).push(digit_char(n % 10))
    }
}

/// The one-character string for digit `d`.
fn digit_str(d: u16) -> (s: &'static str)
    requires
        d < 10,
    ensures
        s@ == seq![digit_char(d as nat)],
{
    if d == 0 {
        proof { reveal_strlit("0"); }
        "0"
    } else if d == 1 {
        proof { reveal_strlit("1"); }
        "1"
    } else if d == 2 {
        proof { reveal_strlit("2"); }
        "2"
    } else if d == 3 {
        proof { reveal_strlit("3"); }
        "3"
    } else if d == 4 {
        proof { reveal_strlit("4"); }
        "4"
    } else if d == 5 {
        proof { reveal_strlit("5"); }
        "5"
    } else if d == 6 {
        proof { reveal_strlit("6"); }
        "6"
    } else if d == 7 {
        proof { reveal_strlit("7"); }
        "7"
    } else if d == 8 {
        proof { reveal_strlit("8"); }
        "8"
    } else {
        proof { reveal_strlit("9"); }
        "9"
    }
}

/// Appends the decimal notation of `n` to `out`.
pub fn append_decimal(out: &mut String, n: u16)
    ensures
        final(out)@ == old(out)@ + decimal(n as nat),
    decreases n,
{
    if n >= 10 {
        append_decimal(out, n / 10);
    }
    out.append(digit_str(n % 10));
    assert(final(out)@ == old(out)@ + decimal(n as nat)) by {
        if n >= 10 {
            assert(decimal(n as nat) == decimal((n / 10) as nat).push(digit_char((n % 10) as nat)));
        }
    }
}

impl Configuration {
    /// `host:port`, the address the WebSocket listener binds to.
    pub fn get_ws_binding_address(&self) -> (address: String)
        ensures
            address@ == self.ws_host@ + seq![':'] + decimal(self.ws_port as nat),
    {
        let mut address = self.ws_host.clone();
        proof { reveal_strlit(":"); }
        address.append(":");
        append_decimal(&mut address, self.ws_port);
        address
    }
}

impl Default for Configuration {
    fn default() -> (c: Configuration)
        ensures
            c.ws_inbound_channel_capacity == 1024,
            c.ws_outbound_channel_capacity == 1024,
            c.ws_host@ == "127.0.0.1"@,
            c.ws_port == 7878,
    {
        Configuration {
            ws_inbound_channel_capacity: 1024,
            ws_outbound_channel_capacity: 1024,
            ws_host: String::from_str("127.0.0.1"),
            ws_port: 7878,
        }
    }
}

} // verus!
