//! Where the agent dials: the configured host and port, the text of the
//! endpoint made of them, and whether the transport takes that text.

use vstd::prelude::*;
use vstd::string::StringExecFns;

verus! {

/// The connection options of the agent.
#[derive(Debug, PartialEq, Eq)]
pub struct ClientCli {
    /// The host to dial, scheme included.
    pub address: String,
    /// The port to dial.
    pub port: u16,
}

/// The character of a decimal digit.
pub open spec fn digit(d: nat) -> char
    recommends
        d < 10,
{
    if d == 0 {
        '0'
    } else if d == 1 {
        '1'
    } else if d == 2 {
        '2'
    } else if d == 3 {
        '3'
    } else if d == 4 {
        '4'
    } else if d == 5 {
        '5'
    } else if d == 6 {
        '6'
    } else if d == 7 {
        '7'
    } else if d == 8 {
        '8'
    } else {
        '9'
    }
}

/// A number in decimal, without leading zeros.
pub open spec fn decimal(n: nat) -> Seq<char>
    decreases n,
{
    if n < 10 {
        seq![digit(n)]
    } else {
        decimal(n / 10).push(digit(n % 10))
    }
}

/// The endpoint of a host and a port: the host, a colon, the port in decimal.
pub open spec fn endpoint_text(address: Seq<char>, port: u16) -> Seq<char> {
    address + seq![':'] + decimal(port as nat)
}

/// Whether the transport takes `text` as the address of an endpoint. This is
/// the answer of tonic's own parser, which reads the text and nothing else;
/// which texts it takes is not said here.
pub uninterp spec fn is_endpoint(text: Seq<char>) -> bool;

/// Asks tonic whether it takes `text` as an address, by
/// `tonic::transport::Channel::from_shared`. That function parses the text as
/// a URI, without dialling, and fails on a text that is none; the contract
/// claims only that its answer is the same for the same text.
#[verifier::external_body]
fn taken_by_transport(text: &str) -> (taken: bool)
    ensures
        taken == is_endpoint(text@),
{
    tonic::transport::Channel::from_shared(text.to_string()).is_ok()
}

fn digit_text(d: u16) -> (text: &'static str)
    requires
        d < 10,
    ensures
        text@ == seq![digit(d as nat)],
{
    proof {
        reveal_strlit("0");
        reveal_strlit("1");
        reveal_strlit("2");
        reveal_strlit("3");
        reveal_strlit("4");
        reveal_strlit("5");
        reveal_strlit("6");
        reveal_strlit("7");
        reveal_strlit("8");
        reveal_strlit("9");
    }
    let text = if d == 0 {
        "0"
    } else if d == 1 {
        "1"
    } else if d == 2 {
        "2"
    } else if d == 3 {
        "3"
    } else if d == 4 {
        "4"
    } else if d == 5 {
        "5"
    } else if d == 6 {
        "6"
    } else if d == 7 {
        "7"
    } else if d == 8 {
        "8"
    } else {
        "9"
    };
    assert(text@ =~= seq![digit(d as nat)]);
    text
}

impl ClientCli {
    /// The endpoint to dial.
    pub fn endpoint(&self) -> (text: String)
        ensures
            text@ == endpoint_text(self.address@, self.port),
    {
        let port = self.port;
        let mut text = self.address.clone();
        proof {
            reveal_strlit(":");
        }
        text.append(":");
        assert(text@ =~= self.address@ + seq![':']);
        let ghost head = text@;
        if port >= 10000 {
            text.append(digit_text(port / 10000));
        }
        if port >= 1000 {
            text.append(digit_text(port / 1000 % 10));
        }
        if port >= 100 {
            text.append(digit_text(port / 100 % 10));
        }
        if port >= 10 {
            text.append(digit_text(port / 10 % 10));
        }
        text.append(digit_text(port % 10));
        proof {
            reveal_with_fuel(decimal, 5);
            assert(text@ =~= head + decimal(port as nat));
        }
        text
    }

    /// Whether the transport takes the endpoint as an address.
    pub fn is_valid(&self) -> (valid: bool)
        ensures
            valid == is_endpoint(endpoint_text(self.address@, self.port)),
    {
        let text = self.endpoint();
        taken_by_transport(text.as_str())
    }
}

} // verus!
