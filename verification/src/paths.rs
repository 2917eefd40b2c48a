use vstd::prelude::*;
use vstd::string::StringExecFns;

verus! {

/// The well-known rendezvous endpoint: the single filesystem path through
/// which every client discovers the listener.
pub open spec fn spec_rendezvous_path() -> Seq<char> {
    "/tmp/rust-fifo"@
}

/// Path of the private pipe a session's client writes its request into and
/// the server reads it from, derived from the session identity.
pub open spec fn spec_read_path(id: u32) -> Seq<char> {
    "/tmp/rust-fifo-read."@ + spec_decimal(id as nat)
}

/// Path of the private pipe a session's server writes its reply into and
/// the client reads it from, derived from the session identity.
pub open spec fn spec_write_path(id: u32) -> Seq<char> {
    "/tmp/rust-fifo-write."@ + spec_decimal(id as nat)
}

/// The decimal digit character of a value below ten.
pub open spec fn spec_digit(d: nat) -> char {
    if d == 0 {
        '0'
    } else if d == 1 {
        '1'
    } else if d == 2 {
        '2'
    } else if d == 3 {
        '3'
    } else if d == 4 {
        '4'
    } else if d == 5 {
        '5'
    } else if d == 6 {
        '6'
    } else if d == 7 {
        '7'
    } else if d == 8 {
        '8'
    } else {
        '9'
    }
}

/// The usual decimal rendering of a natural number, most significant digit
/// first and without leading zeros.
pub open spec fn spec_decimal(n: nat) -> Seq<char>
    decreases n,
{
    if n < 10 {
        seq![spec_digit(n)]
    } else {
        spec_decimal(n / 10).push(spec_digit(n % 10))
    }
}

fn digit_str(d: u32) -> (r: &'static str)
    requires
        d < 10,
    ensures
        r@ == seq![spec_digit(d as nat)],
{
    let r = match d {
        0 => "0",
        1 => "1",
        2 => "2",
        3 => "3",
        4 => "4",
        5 => "5",
        6 => "6",
        7 => "7",
        8 => "8",
        _ => "9",
    };
    proof {
        reveal_strlit("0");
        reveal_strlit("1");
        reveal_strlit("2");
        reveal_strlit("3");
        reveal_strlit("4");
        reveal_strlit("5");
        reveal_strlit("6");
        reveal_strlit("7");
        reveal_strlit("8");
        reveal_strlit("9");
        assert(r@ =~= seq![spec_digit(d as nat)]);
    }
    r
}

/// Renders a session identity in decimal, exactly as it appears in the
/// private pipe paths.
pub fn decimal_string(n: u32) -> (s: String)
    ensures
        s@ == spec_decimal(n as nat),
    decreases n,
{
    if n < 10 {
        String::from_str(digit_str(n))
    } else {
        let mut s = decimal_string(n / 10);
        s.append(digit_str(n % 10));
        proof {
            assert(s@ =~= spec_decimal(n as nat));
        }
        s
    }
}

/// The rendezvous endpoint path as a string.
pub fn rendezvous_path() -> (s: String)
    ensures
        s@ == spec_rendezvous_path(),
{
    String::from_str("/tmp/rust-fifo")
}

/// Derives the request pipe's path from a session identity.
pub fn read_pipe_path(id: u32) -> (s: String)
    ensures
        s@ == spec_read_path(id),
{
    let mut s = String::from_str("/tmp/rust-fifo-read.");
    let digits = decimal_string(id);
    s.append(digits.as_str());
    s
}

/// Derives the reply pipe's path from a session identity.
pub fn write_pipe_path(id: u32) -> (s: String)
    ensures
        s@ == spec_write_path(id),
{
    let mut s = String::from_str("/tmp/rust-fifo-write.");
    let digits = decimal_string(id);
    s.append(digits.as_str());
    s
}

proof fn lemma_decimal_len(n: nat)
    ensures
        n < 10 <==> spec_decimal(n).len() == 1,
        n >= 10 ==> spec_decimal(n).len() >= 2,
    decreases n,
{
    if n >= 10 {
        lemma_decimal_len(n / 10);
    }
}

proof fn lemma_decimal_injective(a: nat, b: nat)
    requires
        spec_decimal(a) == spec_decimal(b),
    ensures
        a == b,
    decreases a,
{
    lemma_decimal_len(a);
    lemma_decimal_len(b);
    if a < 10 && b < 10 {
        assert(spec_decimal(a)[0] == spec_digit(a));
        assert(spec_decimal(b)[0] == spec_digit(b));
    } else if a >= 10 && b >= 10 {
        let sa = spec_decimal(a);
        let sb = spec_decimal(b);
        assert(sa.last() == spec_digit(a % 10));
        assert(sb.last() == spec_digit(b % 10));
        assert(a % 10 == b % 10);
        assert(sa.drop_last() =~= spec_decimal(a / 10));
        assert(sb.drop_last() =~= spec_decimal(b / 10));
        lemma_decimal_injective(a / 10, b / 10);
        assert(a == 10 * (a / 10) + a % 10);
        assert(b == 10 * (b / 10) + b % 10);
    }
}

/// Collision-freedom of the naming scheme: the private pipe paths of two
/// sessions with distinct identities never coincide, a request pipe's path
/// never coincides with any reply pipe's path, and no private pipe path
/// coincides with the rendezvous endpoint.  Concurrent sessions with
/// distinct identities therefore never open each other's pipes.
pub proof fn lemma_paths_injective(a: u32, b: u32)
    requires
        a != b,
    ensures
        spec_read_path(a) != spec_read_path(b),
        spec_write_path(a) != spec_write_path(b),
        spec_read_path(a) != spec_write_path(b),
        spec_read_path(a) != spec_rendezvous_path(),
        spec_write_path(a) != spec_rendezvous_path(),
{
    reveal_strlit("/tmp/rust-fifo");
    assert("/tmp/rust-fifo"@.len() == 14);
    lemma_decimal_len(a as nat);
    reveal_strlit("/tmp/rust-fifo-read.");
    reveal_strlit("/tmp/rust-fifo-write.");
    let rbase = "/tmp/rust-fifo-read."@;
    let wbase = "/tmp/rust-fifo-write."@;
    assert(rbase.len() == 20);
    assert(wbase.len() == 21);
    if spec_read_path(a) == spec_read_path(b) {
        assert((rbase + spec_decimal(a as nat)).skip(20) =~= spec_decimal(a as nat));
        assert((rbase + spec_decimal(b as nat)).skip(20) =~= spec_decimal(b as nat));
        lemma_decimal_injective(a as nat, b as nat);
    }
    if spec_write_path(a) == spec_write_path(b) {
        assert((wbase + spec_decimal(a as nat)).skip(21) =~= spec_decimal(a as nat));
        assert((wbase + spec_decimal(b as nat)).skip(21) =~= spec_decimal(b as nat));
        lemma_decimal_injective(a as nat, b as nat);
    }
    if spec_read_path(a) == spec_write_path(b) {
        assert(spec_read_path(a)[15] == rbase[15]);
        assert(spec_write_path(b)[15] == wbase[15]);
        assert(rbase[15] == 'r');
        assert(wbase[15] == 'w');
    }
}

} // verus!
