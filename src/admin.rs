use vstd::prelude::*;
use crate::error::AdapterError;

verus! {

/// A validated request for a topic with a computed layout.
#[derive(Clone, Debug)]
pub struct TopicRequest {
    pub name: String,
    pub partitions: i32,
    pub replication: i32,
    pub ignore_rack: Option<bool>,
}

/// Whether a topic with these inputs may be requested.
pub open spec fn valid_topic(name: Seq<char>, partitions: i32, replication: i32) -> bool {
    name.len() > 0 && partitions >= 1 && replication >= 1
}

/// Checks a topic request before it is sent: the name is non-empty and both
/// counts are at least one.
pub fn topic_request(name: &str, partitions: i32, replication: i32, ignore_rack: Option<bool>) -> (r:
    Result<TopicRequest, AdapterError>)
    ensures
        r is Ok <==> valid_topic(name@, partitions, replication),
        r is Err ==> r->Err_0 is InvalidTopic,
        r is Ok ==> ({
            let t = r->Ok_0;
            &&& t.name@ == name@
            &&& t.partitions == partitions
            &&& t.replication == replication
            &&& t.ignore_rack == ignore_rack
        }),
{
    if name.unicode_len() == 0 || partitions < 1 || replication < 1 {
        Err(AdapterError::InvalidTopic)
    } else {
        Ok(TopicRequest { name: name.to_owned(), partitions, replication, ignore_rack })
    }
}

} // verus!
