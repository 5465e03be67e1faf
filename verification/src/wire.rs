//! What leaves the process: the request body of a flush, the collector's
//! address, and the bytes appended to the log mirror.

use crate::event::{events_of, label_of, text_of, ClickhouseEventWrapper};
use crate::model::Envelope;
use vstd::prelude::*;
use vstd::string::StringExecFns;

verus! {

/// The collector's path below the server's address.
pub const CLICKHOUSE_EVENTS_URL_PATH: &'static str = "/api/events";

/// The byte that ends each record of the log mirror.
pub const LOG_RECORD_END: u8 = 10;

/// The body of one flush request: identity fields and the drained events.
#[derive(Debug, PartialEq, Eq)]
pub struct ClickhouseEventRequestBody {
    pub token: &'static str,
    pub installation_id: Option<String>,
    pub app_version: Option<String>,
    pub os_name: &'static str,
    pub os_version: Option<String>,
    pub architecture: &'static str,
    pub release_channel: Option<&'static str>,
    pub events: Vec<ClickhouseEventWrapper>,
}

impl View for ClickhouseEventRequestBody {
    type V = Envelope;

    open spec fn view(&self) -> Envelope {
        Envelope {
            token: self.token@,
            installation_id: text_of(self.installation_id),
            app_version: text_of(self.app_version),
            os_name: self.os_name@,
            os_version: text_of(self.os_version),
            architecture: self.architecture@,
            release_channel: label_of(self.release_channel),
            events: events_of(self.events@),
        }
    }
}

/// The address that flush requests are posted to: the server's address with
/// the collector's path behind it.
pub fn clickhouse_events_url(server_url: &str) -> (url: String)
    ensures
        url@ == server_url@ + CLICKHOUSE_EVENTS_URL_PATH@,
{
    let mut url = server_url.to_owned();
    url.append(CLICKHOUSE_EVENTS_URL_PATH);
    url
}

/// The log mirror's content for a run of records: each record followed by
/// one line end, in order.
pub open spec fn log_text(records: Seq<Seq<u8>>) -> Seq<u8>
    decreases records.len(),
{
    if records.len() == 0 {
        Seq::empty()
    } else {
        log_text(records.drop_last()) + records.last().push(LOG_RECORD_END)
    }
}

/// The records of a batch as sequences of bytes.
pub open spec fn records_of(records: Seq<Vec<u8>>) -> Seq<Seq<u8>> {
    Seq::new(records.len(), |i: int| records[i]@)
}

/// The bytes to append to the log mirror for the serialized events of one
/// flush: one record per line.
pub fn log_lines(records: &Vec<Vec<u8>>) -> (bytes: Vec<u8>)
    ensures
        bytes@ == log_text(records_of(records@)),
{
    let mut bytes: Vec<u8> = Vec::new();
    let mut done: usize = 0;
    while done < records.len()
        invariant
            done <= records.len(),
            bytes@ == log_text(records_of(records@).take(done as int)),
        decreases records.len() - done,
    {
        let record = &records[done];
        let ghost before = bytes@;
        let mut at: usize = 0;
        while at < record.len()
            invariant
                at <= record.len(),
                bytes@ == before + record@.take(at as int),
            decreases record.len() - at,
        {
            bytes.push(record[at]);
            at = at + 1;
            assert(record@.take(at as int) == record@.take(at - 1).push(record@[at - 1]));
        }
        bytes.push(LOG_RECORD_END);
        proof {
            let all = records_of(records@);
            assert(record@.take(at as int) == record@);
            assert(all.take(done + 1).drop_last() == all.take(done as int));
            assert(all.take(done + 1).last() == record@);
        }
        done = done + 1;
    }
    assert(records_of(records@).take(done as int) == records_of(records@));
    bytes
}

} // verus!
