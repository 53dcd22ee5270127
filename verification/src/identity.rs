//! How a service's agent is derived: its identity is the identity token, a
//! dash, and a random nonce in decimal; its id is the hash of that identity.

use vstd::prelude::*;
use vstd::string::*;
use crate::error::ServiceError;
use crate::naming::{agent_from_strings, class_of_strings, hash_str, str_hash, AgentName};

verus! {

/// The character of the decimal digit `d` (`'9'` for anything above 8).
pub open spec fn digit_char(d: int) -> char {
    if d == 0 {
        '0'
    } else if d == 1 {
        '1'
    } else if d == 2 {
        '2'
    } else if d == 3 {
        '3'
    } else if d == 4 {
        '4'
    } else if d == 5 {
        '5'
    } else if d == 6 {
        '6'
    } else if d == 7 {
        '7'
    } else if d == 8 {
        '8'
    } else {
        '9'
    }
}

/// Whether `c` is one of the characters `'0'` to `'9'`.
pub open spec fn is_digit(c: char) -> bool {
    48 <= (c as int) && (c as int) <= 57
}

/// The value of a decimal digit character: its distance from `'0'`.
pub open spec fn digit_value(c: char) -> int {
    (c as int) - 48
}

/// Whether `s` is a decimal numeral as `Display` writes one: at least one
/// digit, only digits, and no leading zero unless it is `"0"` itself.
pub open spec fn is_numeral(s: Seq<char>) -> bool {
    &&& s.len() >= 1
    &&& forall|i: int| 0 <= i < s.len() ==> is_digit(#[trigger] s[i])
    &&& (s.len() == 1 || s[0] != '0')
}

/// The decimal rendering of `n`, most significant digit first, without
/// leading zeros: what `Display` writes for an unsigned integer.
pub open spec fn decimal(n: nat) -> Seq<char>
    decreases n,
{
    if n < 10 {
        seq![digit_char(n as int)]
    } else {
        decimal(n / 10).push(digit_char((n % 10) as int))
    }
}

/// The number that a string of decimal digits denotes.
pub open spec fn decimal_value(s: Seq<char>) -> int
    decreases s.len(),
{
    if s.len() == 0 {
        0
    } else {
        decimal_value(s.drop_last()) * 10 + digit_value(s.last())
    }
}

/// The identity of an agent: the token, a dash, and the nonce in decimal.
pub open spec fn identity_text(token: Seq<char>, nonce: nat) -> Seq<char> {
    token + seq!['-'] + decimal(nonce)
}

/// The message of the error raised when the identity provider gives no token.
pub open spec fn token_error_text(reason: Seq<char>) -> Seq<char> {
    "Failed to get token from provider: "@ + reason
}

/// Reading back the decimal rendering of `n` gives `n`.
pub proof fn lemma_decimal_value(n: nat)
    ensures
        decimal_value(decimal(n)) == n,
        decimal(n).len() >= 1,
    decreases n,
{
    assert(decimal_value(Seq::<char>::empty()) == 0);
    if n < 10 {
        assert(decimal(n).drop_last() =~= Seq::<char>::empty());
    } else {
        lemma_decimal_value(n / 10);
        assert(decimal(n).drop_last() =~= decimal(n / 10));
        assert(decimal(n).last() == digit_char((n % 10) as int));
        assert(n == (n / 10) * 10 + n % 10) by (nonlinear_arith);
    }
}

/// Law: the decimal rendering of `n` is a numeral (digits only, no leading
/// zero) whose value is `n`.
pub proof fn law_decimal_numeral(n: nat)
    ensures
        is_numeral(decimal(n)),
        decimal_value(decimal(n)) == n,
        n >= 1 ==> decimal(n)[0] != '0',
    decreases n,
{
    lemma_decimal_value(n);
    if n < 10 {
        assert(is_digit(digit_char(n as int)));
        assert(decimal(n)[0] == digit_char(n as int));
    } else {
        assert(is_digit(digit_char((n % 10) as int)));
        law_decimal_numeral(n / 10);
        let s = decimal(n);
        let p = decimal(n / 10);
        assert forall|i: int| 0 <= i < s.len() implies is_digit(#[trigger] s[i]) by {
            if i < p.len() {
                assert(s[i] == p[i]);
            }
        }
        assert(s[0] == p[0]);
    }
}

/// Law: an identity is the token, then a dash, then the nonce as a numeral:
/// the token comes back unchanged from its front, and the nonce from the
/// digits after the dash.
pub proof fn law_identity_shape(token: Seq<char>, nonce: nat)
    ensures
        identity_text(token, nonce).len() > token.len() + 1,
        identity_text(token, nonce).subrange(0, token.len() as int) == token,
        identity_text(token, nonce)[token.len() as int] == '-',
        is_numeral(
            identity_text(token, nonce).subrange(token.len() + 1int, identity_text(token, nonce).len() as int),
        ),
        decimal_value(
            identity_text(token, nonce).subrange(token.len() + 1int, identity_text(token, nonce).len() as int),
        ) == nonce,
{
    let id = identity_text(token, nonce);
    law_decimal_numeral(nonce);
    assert(id.subrange(0, token.len() as int) =~= token);
    assert(id.subrange(token.len() + 1int, id.len() as int) =~= decimal(nonce));
}

/// The nonce can be read back from the identity: the text after the token
/// and its dash is the nonce in decimal.
pub proof fn lemma_identity_nonce(token: Seq<char>, nonce: nat)
    ensures
        identity_text(token, nonce).subrange(token.len() + 1int, identity_text(token, nonce).len() as int)
            == decimal(nonce),
        decimal_value(
            identity_text(token, nonce).subrange(token.len() + 1int, identity_text(token, nonce).len() as int),
        ) == nonce,
{
    let id = identity_text(token, nonce);
    assert(id.subrange(token.len() + 1int, id.len() as int) =~= decimal(nonce));
    lemma_decimal_value(nonce);
}

/// Law: two identities built from the same token with different nonces are
/// different, so the nonce keeps two services with one token apart.
pub proof fn law_identity_distinct_nonces(token: Seq<char>, n1: nat, n2: nat)
    requires
        n1 != n2,
    ensures
        identity_text(token, n1) != identity_text(token, n2),
{
    lemma_identity_nonce(token, n1);
    lemma_identity_nonce(token, n2);
}

/// The one-character string of the decimal digit `d`.
fn digit_str(d: u32) -> (s: &'static str)
    requires
        d < 10,
    ensures
        s@ == seq![digit_char(d as int)],
{
    if d == 0 {
        proof { reveal_strlit("0"); }
        assert("0"@ =~= seq!['0']);
        "0"
    } else if d == 1 {
        proof { reveal_strlit("1"); }
        assert("1"@ =~= seq!['1']);
        "1"
    } else if d == 2 {
        proof { reveal_strlit("2"); }
        assert("2"@ =~= seq!['2']);
        "2"
    } else if d == 3 {
        proof { reveal_strlit("3"); }
        assert("3"@ =~= seq!['3']);
        "3"
    } else if d == 4 {
        proof { reveal_strlit("4"); }
        assert("4"@ =~= seq!['4']);
        "4"
    } else if d == 5 {
        proof { reveal_strlit("5"); }
        assert("5"@ =~= seq!['5']);
        "5"
    } else if d == 6 {
        proof { reveal_strlit("6"); }
        assert("6"@ =~= seq!['6']);
        "6"
    } else if d == 7 {
        proof { reveal_strlit("7"); }
        assert("7"@ =~= seq!['7']);
        "7"
    } else if d == 8 {
        proof { reveal_strlit("8"); }
        assert("8"@ =~= seq!['8']);
        "8"
    } else {
        proof { reveal_strlit("9"); }
        assert("9"@ =~= seq!['9']);
        "9"
    }
}

/// Appends the decimal rendering of `n` to `s`.
fn push_decimal(s: &mut String, n: u32)
    ensures
        final(s)@ == old(s)@ + decimal(n as nat),
    decreases n,
{
    if n >= 10 {
        push_decimal(s, n / 10);
    }
    let d = digit_str(n % 10);
    s.append(d);
    proof {
        if n >= 10 {
            assert(old(s)@ + decimal((n / 10) as nat) + seq![digit_char((n % 10) as int)]
                =~= old(s)@ + decimal(n as nat));
        } else {
            assert(old(s)@ + seq![digit_char((n % 10) as int)] =~= old(s)@ + decimal(n as nat));
        }
    }
}

/// The decimal rendering of `n`.
pub fn decimal_string(n: u32) -> (r: String)
    ensures
        r@ == decimal(n as nat),
        is_numeral(r@),
        decimal_value(r@) == n,
{
    proof { law_decimal_numeral(n as nat); }
    let mut r = String::new();
    push_decimal(&mut r, n);
    assert(Seq::<char>::empty() + decimal(n as nat) =~= decimal(n as nat));
    r
}

/// The identity built from `token` and `nonce`: `"{token}-{nonce}"`.
pub fn identity_with_nonce(token: &str, nonce: u32) -> (r: String)
    ensures
        r@ == identity_text(token@, nonce as nat),
        r@.len() > token@.len() + 1,
        r@.subrange(0, token@.len() as int) == token@,
        r@[token@.len() as int] == '-',
        is_numeral(r@.subrange(token@.len() + 1int, r@.len() as int)),
        decimal_value(r@.subrange(token@.len() + 1int, r@.len() as int)) == nonce,
{
    proof { law_identity_shape(token@, nonce as nat); }
    let mut r = token.to_owned();
    proof { reveal_strlit("-"); }
    assert("-"@ =~= seq!['-']);
    r.append("-");
    push_decimal(&mut r, nonce);
    r
}

/// A random `u32`, from `rand::random`. Nothing is stated of its value:
/// any `u32` may come back, and two calls may give different values.
#[verifier::external_body]
fn random_nonce() -> (r: u32) {
    rand::random::<u32>()
}

/// The agent a service runs as, for the agent type
/// `organization/namespace/agent_type`, the identity token `token` and the
/// nonce `nonce`: its class is named by the three strings, and its id is the
/// hash of the identity `"{token}-{nonce}"`.
pub open spec fn service_agent_text(
    organization: Seq<char>,
    namespace: Seq<char>,
    agent_type: Seq<char>,
    token: Seq<char>,
    nonce: nat,
) -> AgentName {
    AgentName {
        class: class_of_strings(organization, namespace, agent_type),
        id: str_hash(identity_text(token, nonce)),
    }
}

/// Law: the agent a service runs as has the class of its three full strings
/// and the id of its identity; two agents built from one token and the same
/// strings differ only through their identities, hence only through their
/// nonces.
pub proof fn law_service_agent(
    organization: Seq<char>,
    namespace: Seq<char>,
    agent_type: Seq<char>,
    token: Seq<char>,
    n1: nat,
    n2: nat,
)
    ensures
        service_agent_text(organization, namespace, agent_type, token, n1).class.organization
            == str_hash(organization),
        service_agent_text(organization, namespace, agent_type, token, n1).class.namespace
            == str_hash(namespace),
        service_agent_text(organization, namespace, agent_type, token, n1).class.agent_type
            == str_hash(agent_type),
        service_agent_text(organization, namespace, agent_type, token, n1).id == str_hash(
            identity_text(token, n1),
        ),
        service_agent_text(organization, namespace, agent_type, token, n1).class
            == service_agent_text(organization, namespace, agent_type, token, n2).class,
        n1 == n2 ==> service_agent_text(organization, namespace, agent_type, token, n1)
            == service_agent_text(organization, namespace, agent_type, token, n2),
        n1 != n2 ==> identity_text(token, n1) != identity_text(token, n2),
{
    if n1 != n2 {
        law_identity_distinct_nonces(token, n1, n2);
    }
}

/// The agent a service runs as, for a given nonce.
pub fn agent_with_nonce(
    organization: &str,
    namespace: &str,
    agent_type: &str,
    token: &str,
    nonce: u32,
) -> (r: AgentName)
    ensures
        r == service_agent_text(organization@, namespace@, agent_type@, token@, nonce as nat),
        r.class.organization == str_hash(organization@),
        r.class.namespace == str_hash(namespace@),
        r.class.agent_type == str_hash(agent_type@),
        r.id == str_hash(identity_text(token@, nonce as nat)),
{
    let identity = identity_with_nonce(token, nonce);
    let id = hash_str(identity.as_str());
    agent_from_strings(organization, namespace, agent_type, id)
}

/// The agent a new service runs as, from the outcome of asking the identity
/// provider for a token (`Err` carries the provider's error text).
/// With a token, the agent's id is derived from the token and a fresh random
/// nonce; without one, the error says why.
pub fn service_agent(
    organization: &str,
    namespace: &str,
    agent_type: &str,
    token: Result<String, String>,
) -> (r: Result<AgentName, ServiceError>)
    ensures
        match token {
            Ok(t) => r matches Ok(agent) && agent.class.organization == str_hash(organization@)
                && agent.class.namespace == str_hash(namespace@) && agent.class.agent_type
                == str_hash(agent_type@) && exists|n: nat|
                n <= u32::MAX && #[trigger] service_agent_text(
                    organization@,
                    namespace@,
                    agent_type@,
                    t@,
                    n,
                ) == agent,
            Err(reason) => r matches Err(ServiceError::ConfigError(m)) && m@ == token_error_text(
                reason@,
            ) && m@ == "Failed to get token from provider: "@ + reason@,
        },
{
    match token {
        Ok(t) => {
            let nonce = random_nonce();
            let agent = agent_with_nonce(organization, namespace, agent_type, t.as_str(), nonce);
            assert(service_agent_text(organization@, namespace@, agent_type@, t@, nonce as nat)
                == agent);
            Ok(agent)
        },
        Err(reason) => {
            let mut m = "Failed to get token from provider: ".to_owned();
            m.append(reason.as_str());
            Err(ServiceError::ConfigError(m))
        },
    }
}

} // verus!
