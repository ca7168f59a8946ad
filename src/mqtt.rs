//! Configuration and routing rules of the message-bus brew service.

use vstd::prelude::*;

use crate::ecam::EcamStatus;

verus! {

/// TLS port of the broker.
pub const MQTT_PORT: u16 = 8883;

/// Keep-alive interval of the broker connection.
pub const KEEP_ALIVE_SECS: u64 = 10;

/// Capacity of the client's request queue.
pub const CLIENT_QUEUE_CAPACITY: usize = 10;

pub struct AwsConfig {
    pub ca: Vec<u8>,
    pub client_cert: Vec<u8>,
    pub client_key: Vec<u8>,
}

pub struct MqttServer {
    pub aws_config: AwsConfig,
    pub client_id: String,
    pub topic_in: String,
    pub topic_out: String,
    pub endpoint: String,
}

/// The input topic without its trailing wildcard character.
pub fn topic_prefix(topic_in: &str) -> (r: String)
    requires
        topic_in@.len() >= 1,
    ensures
        r@ == topic_in@.drop_last(),
{
    let n = topic_in.unicode_len();
    String::from_str(topic_in.substring_char(0, n - 1))
}

/// Whether `s` begins with `prefix`.
pub fn starts_with(s: &str, prefix: &str) -> (r: bool)
    ensures
        r == (prefix@.len() <= s@.len() && s@.subrange(0, prefix@.len() as int) == prefix@),
{
    let n = s.unicode_len();
    let m = prefix.unicode_len();
    if m > n {
        return false;
    }
    let mut k: usize = 0;
    while k < m
        invariant
            m == prefix@.len(),
            n == s@.len(),
            m <= n,
            k <= m,
            s@.subrange(0, k as int) == prefix@.subrange(0, k as int),
        decreases m - k,
    {
        if s.get_char(k) != prefix.get_char(k) {
            assert(s@.subrange(0, m as int)[k as int] != prefix@[k as int]);
            return false;
        }
        assert(s@.subrange(0, k + 1) =~= s@.subrange(0, k as int).push(s@[k as int]));
        assert(prefix@.subrange(0, k + 1) =~= prefix@.subrange(0, k as int).push(
            prefix@[k as int],
        ));
        k = k + 1;
    }
    assert(prefix@.subrange(0, m as int) =~= prefix@);
    true
}

/// Whether an incoming publish starts a brew: a first delivery on a topic
/// under the input prefix. Redeliveries flagged as duplicates are dropped.
pub fn accept_publish(dup: bool, topic: &str, prefix: &str) -> (r: bool)
    ensures
        r == (!dup && prefix@.len() <= topic@.len() && topic@.subrange(0, prefix@.len() as int)
            == prefix@),
{
    !dup && starts_with(topic, prefix)
}

/// The topic on which the progress of an order is published:
/// `<topic_out>/<order_id>`.
pub fn order_topic(topic_out: &str, order_id: &str) -> (r: String)
    ensures
        r@ == topic_out@ + seq!['/'] + order_id@,
{
    let mut t = String::from_str(topic_out);
    proof {
        reveal_strlit("/");
    }
    t.append("/");
    t.append(order_id);
    t
}

/// Whether a status is published: only when it differs from the last one
/// published for the order.
pub fn should_publish(last: Option<EcamStatus>, status: EcamStatus) -> (r: bool)
    ensures
        r == (last != Some(status)),
{
    match last {
        Some(l) => l != status,
        None => true,
    }
}

} // verus!
