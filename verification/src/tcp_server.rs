// What the virtual printer's TCP server decides: its shared state, how a
// received job is processed, and the text of the debug records it sends to
// the front end. The socket handling itself runs outside this library.
use crate::escpos_model::{initial_model, parse_job};
use crate::escpos_parser::EscPosParser;
use crate::parser_laws::{law_parse_in_range, law_parsed_jobs_render};
use crate::print_job::{fresh_job, JobSource, ParsedCommand, PrintJob, SourceView, Timestamp};
use crate::renderer::{id_cuttable, law_ascii_ids_cut, renderable_element};
use crate::printer_state::{paper_for_mm, paper_width_from_mm, PaperWidth};
use crate::text::{dec_text, hex_text, push_dec, push_hex};
use vstd::prelude::*;
use vstd::string::StringExecFns;

verus! {

/// State shared between the server and the commands.
pub struct ServerState {
    pub running: bool,
    pub port: u16,
    pub paper_width: PaperWidth,
    pub jobs_received: u32,
    pub last_job: Option<PrintJob>,
}

impl Default for ServerState {
    fn default() -> (r: Self)
        ensures
            !r.running,
            r.port == 9100,
            r.paper_width == PaperWidth::Mm80,
            r.jobs_received == 0,
            r.last_job is None,
    {
        ServerState {
            running: false,
            port: 9100,
            paper_width: PaperWidth::Mm80,
            jobs_received: 0,
            last_job: None,
        }
    }
}

impl ServerState {
    /// Mark the server as starting on `port` with the paper that
    /// `paper_width_mm` selects, and give the status message
    /// `Server started on 127.0.0.1:<port>`; refused while it is already
    /// running.
    pub fn begin(&mut self, port: u16, paper_width_mm: u8) -> (r: Result<String, String>)
        ensures
            old(self).running ==> (r matches Err(e) && e@ == "Server is already running"@),
            old(self).running ==> final(self).port == old(self).port && final(self).paper_width
                == old(self).paper_width && final(self).running,
            !old(self).running ==> (r matches Ok(msg) && msg@ == "Server started on 127.0.0.1:"@
                + dec_text(port as nat)) && final(self).running && final(self).port == port
                && final(self).paper_width == paper_for_mm(paper_width_mm),
            final(self).jobs_received == old(self).jobs_received,
            final(self).last_job == old(self).last_job,
    {
        if self.running {
            return Err(String::from_str("Server is already running"));
        }
        self.paper_width = paper_width_from_mm(paper_width_mm);
        self.port = port;
        self.running = true;
        let mut msg = String::from_str("Server started on 127.0.0.1:");
        push_dec(&mut msg, port as u64);
        Ok(msg)
    }

    /// Count a processed job and keep it as the last one.
    pub fn record_job(&mut self, job: PrintJob)
        requires
            old(self).jobs_received < u32::MAX,
        ensures
            final(self).jobs_received == old(self).jobs_received + 1,
            final(self).last_job == Some(job),
            final(self).running == old(self).running,
            final(self).port == old(self).port,
            final(self).paper_width == old(self).paper_width,
    {
        self.jobs_received = self.jobs_received + 1;
        self.last_job = Some(job);
    }
}

/// Whether `id` is a UUID in hyphenated form: 36 characters, hyphens at 8,
/// 13, 18 and 23, lower-case hexadecimal digits elsewhere.
pub open spec fn is_hyphenated_uuid(id: Seq<char>) -> bool {
    &&& id.len() == 36
    &&& forall|i: int|
        0 <= i < 36 ==> if i == 8 || i == 13 || i == 18 || i == 23 {
            #[trigger] id[i] == '-'
        } else {
            ('0' <= id[i] <= '9') || ('a' <= id[i] <= 'f')
        }
}

/// A fresh random job id: `uuid::Uuid::new_v4().to_string()`. The value is
/// random, so only its form is stated, as the crate's `Display` writes it
/// (lower-case hyphenated hexadecimal).
#[verifier::external_body]
fn new_job_id() -> (r: String)
    ensures
        is_hyphenated_uuid(r@),
{
    uuid::Uuid::new_v4().to_string()
}

/// Every job `process_job` makes meets what `render_html` asks: its id, a
/// hyphenated UUID, can be cut after eight bytes, and every element can be
/// drawn.
pub proof fn law_processed_jobs_render(
    paper: PaperWidth,
    id: Seq<char>,
    at: Timestamp,
    source: SourceView,
    raw: Seq<u8>,
)
    requires
        is_hyphenated_uuid(id),
    ensures
        ({
            let j = parse_job(initial_model(paper), fresh_job(id, at, source, raw)).1;
            &&& id_cuttable(j.id)
            &&& forall|i: int|
                0 <= i < j.elements.len() ==> renderable_element(#[trigger] j.elements[i])
        }),
{
    assert forall|i: int| 0 <= i < id.len() implies (#[trigger] id[i] as u32) < 0x80 by {
        assert(is_hyphenated_uuid(id));
    }
    law_ascii_ids_cut(id);
    law_parse_in_range(paper, id, at, source, raw);
    law_parsed_jobs_render(paper, id, at, source, raw);
}

/// Parse raw bytes into a new job with a fresh random id.
pub fn process_job(raw_bytes: Vec<u8>, paper_width: PaperWidth, source: JobSource) -> (job: PrintJob)
    ensures
        job@ == parse_job(
            initial_model(paper_width),
            fresh_job(job.id@, job.received_at, source@, raw_bytes@),
        ).1,
        is_hyphenated_uuid(job.id@),
{
    let byte_count: usize = raw_bytes.len();
    let job_id = new_job_id();
    let mut job = PrintJob::new(job_id, source, raw_bytes);
    let mut parser = EscPosParser::new(paper_width);
    assert(job@.raw_bytes.len() == byte_count);
    parser.parse(&mut job);
    job
}

/// The offset of a parsed command as four or more upper-case hex digits.
pub fn command_offset_text(c: &ParsedCommand) -> (r: String)
    ensures
        r@ == hex_text(c.byte_offset as nat, 4),
{
    let mut s = String::new();
    push_hex(&mut s, c.byte_offset as u64, 4);
    proof {
        assert(s@ =~= hex_text(c.byte_offset as nat, 4));
    }
    s
}

} // verus!
