//! The zone lister: a state machine over the provider's paginated zone list.
//!
//! The provider answers each listing request with an envelope holding a
//! success flag, a batch of zones, pagination data, and error messages.
//! The machine starts at page 1, accepts one envelope at a time, and either
//! finishes with every page collected, halts on the first unsuccessful
//! envelope, or names the next page to request.  The surrounding binary
//! performs the HTTP requests and feeds each decoded envelope in.

use crate::numbers::decimal_chars;
use crate::numbers::u32_to_decimal;
use vstd::prelude::*;
use vstd::string::StringExecFns;

verus! {

/// One DNS zone of the account: its provider-assigned id and its name.
#[derive(Debug)]
pub struct Domain {
    pub id: String,
    pub name: String,
}

/// Pagination data of one listing envelope.
#[derive(Clone, Copy, Debug, PartialEq, Eq, Structural)]
pub struct PageInfo {
    pub page: u32,
    pub total_pages: u32,
    pub count: u32,
    pub total_count: u32,
}

/// One provider-reported error message.
#[derive(Debug)]
pub struct ApiMessage {
    pub message: String,
}

/// A decoded listing envelope, as the provider returns it.
pub struct ZonePage {
    pub success: bool,
    pub result: Vec<Domain>,
    pub result_info: PageInfo,
    pub errors: Vec<ApiMessage>,
}

/// The provider reported failure: its messages, to be shown one by one.
#[derive(Debug)]
pub struct ApiFailure {
    pub errors: Vec<ApiMessage>,
}

impl ApiFailure {
    /// The diagnostic lines for a provider-reported failure: each message,
    /// indented, in the order the provider gave them.
    pub fn message_lines(&self) -> (r: Vec<String>)
        ensures
            r@.len() == self.errors@.len(),
            forall|i: int|
                0 <= i < r@.len() ==> (#[trigger] r@[i])@ == "  - "@ + self.errors@[i].message@,
    {
        let mut lines: Vec<String> = Vec::new();
        let n = self.errors.len();
        let mut i: usize = 0;
        while i < n
            invariant
                n == self.errors@.len(),
                i <= n,
                lines@.len() == i,
                forall|j: int|
                    0 <= j < i ==> (#[trigger] lines@[j])@ == "  - "@ + self.errors@[j].message@,
            decreases n - i,
        {
            let mut line = String::from_str("  - ");
            line.append(self.errors[i].message.as_str());
            lines.push(line);
            i += 1;
        }
        lines
    }
}

/// The progress line printed for each accepted batch.
pub fn batch_message(count: u32) -> (r: String)
    ensures
        r@ == "Fetching batch of "@ + decimal_chars(count as nat) + " DNS records ..."@,
{
    let mut s = String::from_str("Fetching batch of ");
    let num = u32_to_decimal(count);
    s.append(num.as_str());
    s.append(" DNS records ...");
    proof {
        assert(("Fetching batch of "@ + decimal_chars(count as nat)) + " DNS records ..."@
            =~= "Fetching batch of "@ + decimal_chars(count as nat) + " DNS records ..."@);
    }
    s
}

/// The line printed once the whole listing is complete.
pub fn fetched_message(total: u32) -> (r: String)
    ensures
        r@ == "Fetched "@ + decimal_chars(total as nat) + " domains."@,
{
    let mut s = String::from_str("Fetched ");
    let num = u32_to_decimal(total);
    s.append(num.as_str());
    s.append(" domains.");
    proof {
        assert(("Fetched "@ + decimal_chars(total as nat)) + " domains."@ =~= "Fetched "@
            + decimal_chars(total as nat) + " domains."@);
    }
    s
}

/// The concatenation of the collected pages, in page order.
pub open spec fn concat_all(pages: Seq<Seq<Domain>>) -> Seq<Domain>
    decreases pages.len(),
{
    if pages.len() == 0 {
        Seq::empty()
    } else {
        concat_all(pages.drop_last()) + pages.last()
    }
}

/// Appending one more page extends the concatenation by exactly that page.
pub proof fn lemma_concat_all_push(pages: Seq<Seq<Domain>>, page: Seq<Domain>)
    ensures
        concat_all(pages.push(page)) == concat_all(pages) + page,
{
    assert(pages.push(page).drop_last() =~= pages);
    assert(pages.push(page).last() == page);
}

/// The abstract state of the lister.
pub struct ListerModel {
    /// The page the next request will ask for.
    pub next_page: int,
    /// No further request will be made.
    pub finished: bool,
    /// The run halted on an unsuccessful envelope.
    pub failed: bool,
    /// The batches accepted so far, in page order.
    pub pages: Seq<Seq<Domain>>,
}

/// The state before any request: page 1 next, nothing collected.
pub open spec fn lister_init() -> ListerModel {
    ListerModel { next_page: 1, finished: false, failed: false, pages: Seq::empty() }
}

/// How one envelope advances the lister.
///
/// An unsuccessful envelope halts the machine with nothing added.  A
/// successful one appends its batch; the machine finishes when the reported
/// page has reached the reported total, and otherwise asks next for the page
/// after the reported one.
pub open spec fn lister_step(m: ListerModel, p: ZonePage) -> ListerModel {
    if !p.success {
        ListerModel { finished: true, failed: true, ..m }
    } else if p.result_info.page >= p.result_info.total_pages {
        ListerModel { finished: true, pages: m.pages.push(p.result@), ..m }
    } else {
        ListerModel {
            next_page: p.result_info.page + 1,
            pages: m.pages.push(p.result@),
            ..m
        }
    }
}

/// The zone lister.  Feed it one decoded envelope per request until it
/// finishes; then take the collected zones.
pub struct Lister {
    next_page: u32,
    finished: bool,
    failed: bool,
    domains: Vec<Domain>,
    pages: Ghost<Seq<Seq<Domain>>>,
}

impl View for Lister {
    type V = ListerModel;

    closed spec fn view(&self) -> ListerModel {
        ListerModel {
            next_page: self.next_page as int,
            finished: self.finished,
            failed: self.failed,
            pages: self.pages@,
        }
    }
}

impl Lister {
    /// The collected zones are exactly the accepted batches, concatenated
    /// in page order, and the next page to ask for fits in the counter.
    pub closed spec fn wf(&self) -> bool {
        &&& self.domains@ == concat_all(self.pages@)
        &&& 1 <= self.next_page
    }

    /// A fresh lister, about to request page 1.
    pub fn new() -> (r: Lister)
        ensures
            r.wf(),
            r@ == lister_init(),
    {
        Lister {
            next_page: 1,
            finished: false,
            failed: false,
            domains: Vec::new(),
            pages: Ghost(Seq::empty()),
        }
    }

    /// No further request will be made.
    pub fn is_finished(&self) -> (r: bool)
        ensures
            r == self@.finished,
    {
        self.finished
    }

    /// The run halted on an unsuccessful envelope.
    pub fn has_failed(&self) -> (r: bool)
        ensures
            r == self@.failed,
    {
        self.failed
    }

    /// The page number the next listing request must carry.
    pub fn page_to_request(&self) -> (r: u32)
        requires
            !self@.finished,
        ensures
            r as int == self@.next_page,
    {
        self.next_page
    }

    /// Accepts the decoded envelope of the page just requested.
    ///
    /// On a successful envelope the batch is appended and the result says
    /// whether the listing is complete.  On an unsuccessful envelope the
    /// machine halts — no further page is ever requested — and the
    /// provider's messages come back verbatim.
    pub fn accept_page(&mut self, page: ZonePage) -> (r: Result<bool, ApiFailure>)
        requires
            old(self).wf(),
            !old(self)@.finished,
        ensures
            final(self).wf(),
            final(self)@ == lister_step(old(self)@, page),
            match r {
                Ok(complete) => page.success && complete == (page.result_info.page
                    >= page.result_info.total_pages) && complete == final(self)@.finished,
                Err(f) => !page.success && f.errors@ == page.errors@ && final(self)@.finished
                    && final(self)@.failed,
            },
    {
        let ZonePage { success, mut result, result_info, errors } = page;
        if !success {
            self.finished = true;
            self.failed = true;
            return Err(ApiFailure { errors });
        }
        proof {
            lemma_concat_all_push(self.pages@, result@);
        }
        self.pages = Ghost(self.pages@.push(result@));
        self.domains.append(&mut result);
        if result_info.page >= result_info.total_pages {
            self.finished = true;
            Ok(true)
        } else {
            self.next_page = result_info.page + 1;
            Ok(false)
        }
    }

    /// Hands out the full zone list once every page has been collected.
    pub fn into_domains(self) -> (r: Vec<Domain>)
        requires
            self.wf(),
            self@.finished,
            !self@.failed,
        ensures
            r@ == concat_all(self@.pages),
    {
        self.domains
    }
}

/// The abstract state after a fresh lister has accepted the first `n`
/// envelopes of `responses`, one step at a time.
pub open spec fn state_after(responses: Seq<ZonePage>, n: nat) -> ListerModel
    decreases n,
{
    if n == 0 {
        lister_init()
    } else {
        lister_step(state_after(responses, (n - 1) as nat), responses[n - 1])
    }
}

/// An orderly provider answer sheet for a listing of `k` pages: the i-th
/// envelope is successful and reports page i (1-based) of `k` total.
pub open spec fn orderly(responses: Seq<ZonePage>, k: nat) -> bool {
    &&& responses.len() == k
    &&& forall|i: int|
        0 <= i < k ==> {
            &&& (#[trigger] responses[i]).success
            &&& responses[i].result_info.page as int == i + 1
            &&& responses[i].result_info.total_pages as int == k
        }
}

proof fn lemma_orderly_state(responses: Seq<ZonePage>, k: nat, n: nat)
    requires
        1 <= k,
        n <= k,
        orderly(responses, k),
    ensures
        state_after(responses, n).finished == (n == k),
        !state_after(responses, n).failed,
        n < k ==> state_after(responses, n).next_page == n + 1,
        state_after(responses, n).pages == responses.take(n as int).map_values(
            |p: ZonePage| p.result@,
        ),
    decreases n,
{
    let f = |p: ZonePage| p.result@;
    if n == 0 {
        assert(state_after(responses, 0).pages =~= responses.take(0).map_values(f));
    } else {
        lemma_orderly_state(responses, k, (n - 1) as nat);
        responses.lemma_map_take_succ(f, n - 1);
        assert(state_after(responses, n).pages =~= responses.take(n as int).map_values(f));
    }
}

/// The pagination law.  Against a provider whose envelope for each request
/// of page i reports success, page i, and `k` total pages, a fresh lister
/// run to completion issues exactly `k` requests, asking for pages 1
/// through `k` in order — before the (n+1)-th acceptance it is unfinished
/// and asks for page n+1 — finishes after the `k`-th envelope without
/// failing, and collects the concatenation of the `k` batches in page
/// order.
pub proof fn lemma_orderly_listing(responses: Seq<ZonePage>, k: nat)
    requires
        1 <= k,
        orderly(responses, k),
    ensures
        forall|n: nat|
            n < k ==> !(#[trigger] state_after(responses, n)).finished && !state_after(
                responses,
                n,
            ).failed && state_after(responses, n).next_page == n + 1,
        state_after(responses, k).finished,
        !state_after(responses, k).failed,
        state_after(responses, k).pages == responses.map_values(|p: ZonePage| p.result@),
        concat_all(state_after(responses, k).pages) == concat_all(
            responses.map_values(|p: ZonePage| p.result@),
        ),
{
    assert forall|n: nat| n < k implies !(#[trigger] state_after(responses, n)).finished
        && !state_after(responses, n).failed && state_after(responses, n).next_page == n + 1 by {
        lemma_orderly_state(responses, k, n);
    }
    lemma_orderly_state(responses, k, k);
    assert(responses.take(k as int) =~= responses);
}

/// Halting on provider-reported failure.  An unsuccessful envelope stops
/// the machine at once: it is finished — so no further page is ever
/// requested — it is marked failed, and nothing is added to what was
/// collected.
pub proof fn lemma_failure_halts(m: ListerModel, p: ZonePage)
    requires
        !p.success,
    ensures
        lister_step(m, p).finished,
        lister_step(m, p).failed,
        lister_step(m, p).pages == m.pages,
{
}

/// How a failed listing request is reported.
#[derive(Clone, Copy, Debug, PartialEq, Eq, Structural)]
pub enum TransportKind {
    /// The provider refused the credentials.
    Auth,
    /// Anything else: the provider could not be reached or answered oddly.
    Connectivity,
}

/// Classifies a transport-level failure of a listing request by its HTTP
/// status, if it carried one: 401 and 403 mean the credentials were refused;
/// everything else is a connectivity problem.
pub fn classify_transport_failure(status: Option<u16>) -> (r: TransportKind)
    ensures
        (r == TransportKind::Auth) == (status matches Some(s) && (s == 401 || s == 403)),
{
    match status {
        Some(s) => {
            if s == 401 || s == 403 {
                TransportKind::Auth
            } else {
                TransportKind::Connectivity
            }
        },
        None => TransportKind::Connectivity,
    }
}

} // verus!
