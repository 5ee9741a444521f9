//! Walking a paginated listing: each page's envelope is decoded and its
//! items are absorbed, in page order, into one result; the page count that
//! the first page reports is the authoritative stopping bound. A page that
//! cannot be decoded, or a non-final page that comes up short, aborts the
//! whole aggregation: no partial result is ever handed out.

use vstd::prelude::*;

use crate::codec::{
    conv_req_u32, decode_entry, spec_decode_entry, spec_req_u32,
};
use crate::json::{find_remove, spec_field_lookup, Field, JsonValue};
use crate::types::{DecodeError, Entries, Entry};
use crate::wire::{json_of, parse_document};

verus! {

/// The mathematical reading of one page envelope.
pub struct EnvelopeModel {
    pub limit: u32,
    pub page: u32,
    pub pages: u32,
    pub total: u32,
    pub items: Seq<Entry>,
}

/// One page of a listing as the server describes it: the page size limit,
/// the current page number, the total page count, the total item count, and
/// the page's entries in server order. Transient: the aggregator absorbs it
/// and drops the envelope.
#[derive(Debug, PartialEq, Eq)]
pub struct PageEnvelope {
    pub limit: u32,
    pub page: u32,
    pub pages: u32,
    pub total: u32,
    pub items: Vec<Entry>,
}

impl View for PageEnvelope {
    type V = EnvelopeModel;

    open spec fn view(&self) -> EnvelopeModel {
        EnvelopeModel {
            limit: self.limit,
            page: self.page,
            pages: self.pages,
            total: self.total,
            items: self.items@,
        }
    }
}

/// What a sequence of entry documents decodes to: the entries in the same
/// order, or the first rejection.
pub open spec fn spec_decode_items(s: Seq<JsonValue>) -> Result<Seq<Entry>, DecodeError>
    decreases s.len(),
{
    if s.len() == 0 {
        Ok(Seq::<Entry>::empty())
    } else {
        match spec_decode_entry(s[0]) {
            Err(e) => Err(e),
            Ok(en) => match spec_decode_items(s.drop_first()) {
                Err(e) => Err(e),
                Ok(rest) => Ok(seq![en] + rest),
            },
        }
    }
}

proof fn lemma_decode_items_all_ok(s: Seq<JsonValue>, out: Seq<Entry>)
    requires
        out.len() == s.len(),
        forall|k: int|
            0 <= k < s.len() ==> spec_decode_entry(s[k]) == Ok::<Entry, DecodeError>(out[k]),
    ensures
        spec_decode_items(s) == Ok::<Seq<Entry>, DecodeError>(out),
    decreases s.len(),
{
    if s.len() == 0 {
        assert(out =~= Seq::<Entry>::empty());
    } else {
        lemma_decode_items_all_ok(s.drop_first(), out.drop_first());
        assert(seq![out[0]] + out.drop_first() =~= out);
    }
}

proof fn lemma_decode_items_err(s: Seq<JsonValue>, i: int, er: DecodeError)
    requires
        0 <= i < s.len(),
        forall|k: int| 0 <= k < i ==> spec_decode_entry(s[k]) is Ok,
        spec_decode_entry(s[i]) == Err::<Entry, DecodeError>(er),
    ensures
        spec_decode_items(s) == Err::<Seq<Entry>, DecodeError>(er),
    decreases i,
{
    if i > 0 {
        lemma_decode_items_err(s.drop_first(), i - 1, er);
    }
}

#[verifier::loop_isolation(false)]
fn decode_items(items: Vec<JsonValue>) -> (r: Result<Vec<Entry>, DecodeError>)
    ensures
        r matches Ok(v) ==> spec_decode_items(items@) matches Ok(s) && v@ == s,
        r matches Err(e) ==> spec_decode_items(items@) == Err::<Seq<Entry>, DecodeError>(e),
{
    let ghost orig: Seq<JsonValue> = items@;
    let mut fs = items;
    let mut out: Vec<Entry> = Vec::new();
    while fs.len() > 0
        invariant
            out@.len() + fs@.len() == orig.len(),
            fs@ == orig.subrange(out@.len() as int, orig.len() as int),
            forall|k: int|
                0 <= k < out@.len() ==> spec_decode_entry(orig[k]) == Ok::<Entry, DecodeError>(
                    out@[k],
                ),
        decreases fs@.len(),
    {
        let ghost i: int = out@.len() as int;
        let e = fs.remove(0);
        proof {
            assert(e == orig[i]);
            assert(fs@ =~= orig.subrange(i + 1, orig.len() as int));
        }
        match decode_entry(e) {
            Ok(en) => out.push(en),
            Err(er) => {
                proof {
                    lemma_decode_items_err(orig, i, er);
                }
                return Err(er);
            },
        }
    }
    proof {
        lemma_decode_items_all_ok(orig, out@);
    }
    Ok(out)
}

/// What one page-envelope document decodes to: the four counts, then the
/// embedded item list, each entry decoded in order.
pub open spec fn spec_decode_envelope(j: JsonValue) -> Result<EnvelopeModel, DecodeError> {
    match j {
        JsonValue::Obj(fields) => {
            let s = fields@;
            if spec_req_u32(spec_field_lookup(s, Field::Limit), Field::Limit) is Err {
                Err(spec_req_u32(spec_field_lookup(s, Field::Limit), Field::Limit)->Err_0)
            } else if spec_req_u32(spec_field_lookup(s, Field::Page), Field::Page) is Err {
                Err(spec_req_u32(spec_field_lookup(s, Field::Page), Field::Page)->Err_0)
            } else if spec_req_u32(spec_field_lookup(s, Field::Pages), Field::Pages) is Err {
                Err(spec_req_u32(spec_field_lookup(s, Field::Pages), Field::Pages)->Err_0)
            } else if spec_req_u32(spec_field_lookup(s, Field::Total), Field::Total) is Err {
                Err(spec_req_u32(spec_field_lookup(s, Field::Total), Field::Total)->Err_0)
            } else {
                match spec_field_lookup(s, Field::Embedded) {
                    Some(JsonValue::Obj(inner)) => match spec_field_lookup(
                        inner@,
                        Field::Items,
                    ) {
                        Some(JsonValue::Arr(elems)) => match spec_decode_items(elems@) {
                            Err(e) => Err(e),
                            Ok(items) => Ok(
                                EnvelopeModel {
                                    limit: spec_req_u32(
                                        spec_field_lookup(s, Field::Limit),
                                        Field::Limit,
                                    )->Ok_0,
                                    page: spec_req_u32(
                                        spec_field_lookup(s, Field::Page),
                                        Field::Page,
                                    )->Ok_0,
                                    pages: spec_req_u32(
                                        spec_field_lookup(s, Field::Pages),
                                        Field::Pages,
                                    )->Ok_0,
                                    total: spec_req_u32(
                                        spec_field_lookup(s, Field::Total),
                                        Field::Total,
                                    )->Ok_0,
                                    items: items,
                                },
                            ),
                        },
                        _ => Err(DecodeError::MissingOrInvalidField(Field::Items)),
                    },
                    _ => Err(DecodeError::MissingOrInvalidField(Field::Embedded)),
                }
            }
        },
        _ => Err(DecodeError::Malformed),
    }
}

/// Decodes one page envelope.
pub fn decode_envelope(j: JsonValue) -> (r: Result<PageEnvelope, DecodeError>)
    ensures
        r matches Ok(env) ==> spec_decode_envelope(j) matches Ok(m) && env@ == m,
        r matches Err(e) ==> spec_decode_envelope(j) == Err::<EnvelopeModel, DecodeError>(e),
{
    match j {
        JsonValue::Obj(fields) => {
            let mut fs = fields;
            let slot_limit = find_remove(&mut fs, Field::Limit);
            let slot_page = find_remove(&mut fs, Field::Page);
            let slot_pages = find_remove(&mut fs, Field::Pages);
            let slot_total = find_remove(&mut fs, Field::Total);
            let slot_embedded = find_remove(&mut fs, Field::Embedded);
            let limit = match conv_req_u32(slot_limit, Field::Limit) {
                Ok(v) => v,
                Err(e) => return Err(e),
            };
            let page = match conv_req_u32(slot_page, Field::Page) {
                Ok(v) => v,
                Err(e) => return Err(e),
            };
            let pages = match conv_req_u32(slot_pages, Field::Pages) {
                Ok(v) => v,
                Err(e) => return Err(e),
            };
            let total = match conv_req_u32(slot_total, Field::Total) {
                Ok(v) => v,
                Err(e) => return Err(e),
            };
            match slot_embedded {
                Some(JsonValue::Obj(inner)) => {
                    let mut ifs = inner;
                    let slot_items = find_remove(&mut ifs, Field::Items);
                    match slot_items {
                        Some(JsonValue::Arr(elems)) => match decode_items(elems) {
                            Ok(items) => Ok(PageEnvelope { limit, page, pages, total, items }),
                            Err(e) => Err(e),
                        },
                        _ => Err(DecodeError::MissingOrInvalidField(Field::Items)),
                    }
                },
                _ => Err(DecodeError::MissingOrInvalidField(Field::Embedded)),
            }
        },
        _ => Err(DecodeError::Malformed),
    }
}

/// A transport failure or a rejected page, as the aggregation surfaces them.
#[derive(Debug, PartialEq, Eq)]
pub enum AggregationAbort {
    /// A page after the first failed to decode, after earlier pages had
    /// already been absorbed.
    Undecodable { page: u32, cause: DecodeError },
    /// A page before the final one returned fewer items than the page size
    /// asked for.
    ShortPage { page: u32, expected: u32, got: usize },
}

/// Why an aggregation ended without a result. None of these is ever
/// swallowed: each surfaces to the caller of the run.
#[derive(Debug, PartialEq, Eq)]
pub enum FetchError {
    /// The first page could not be decoded.
    Decode(DecodeError),
    /// The transport collaborator failed: a request could not be made or
    /// answered. The run stops at once; retrying is the transport's affair.
    Transport(String),
    /// A later page was undecodable or short: the partial result is
    /// discarded rather than returned truncated.
    Abort(AggregationAbort),
}

/// The mathematical state of one aggregation run.
pub struct AggModel {
    /// The page size every request asks for.
    pub page_size: u32,
    /// Whether the first page has been absorbed.
    pub started: bool,
    /// The total page count that the first page reported: the authoritative
    /// stopping bound for the whole run.
    pub bound: u32,
    /// The page number of the outstanding request.
    pub requested: u32,
    /// Everything absorbed so far, in page-then-within-page order.
    pub items: Seq<Entry>,
}

/// What one response does to a run: carry on with the next page, finish
/// with the whole result, or fail with nothing.
pub enum FeedModel {
    Continue(AggModel),
    Done(Seq<Entry>),
    Failed(FetchError),
}

/// The state a fresh run starts in: page 1 is the outstanding request.
pub open spec fn spec_new(page_size: u32) -> AggModel {
    AggModel { page_size, started: false, bound: 0, requested: 1, items: Seq::<Entry>::empty() }
}

/// How a run fails on an undecodable response: on the first page the decode
/// error itself surfaces; on a later page the run aborts, naming the page.
pub open spec fn spec_fail(m: AggModel, cause: DecodeError) -> FetchError {
    if !m.started {
        FetchError::Decode(cause)
    } else {
        FetchError::Abort(AggregationAbort::Undecodable { page: m.requested, cause })
    }
}

/// How a run absorbs one decoded envelope. The first page fixes the bound:
/// zero pages or a zero total means an empty collection and an empty result;
/// one page means that page is the whole result; otherwise page 2 is
/// requested next. A later non-final page must carry at least the page size
/// in items; the run finishes when the bound page has been absorbed.
pub open spec fn spec_absorb(m: AggModel, env: EnvelopeModel) -> FeedModel {
    if !m.started {
        if env.pages == 0 || env.total == 0 {
            FeedModel::Done(Seq::<Entry>::empty())
        } else if env.pages <= 1 {
            FeedModel::Done(env.items)
        } else {
            FeedModel::Continue(
                AggModel {
                    page_size: m.page_size,
                    started: true,
                    bound: env.pages,
                    requested: 2,
                    items: env.items,
                },
            )
        }
    } else {
        if m.requested < m.bound && env.items.len() < m.page_size {
            FeedModel::Failed(
                FetchError::Abort(
                    AggregationAbort::ShortPage {
                        page: m.requested,
                        expected: m.page_size,
                        got: env.items.len() as usize,
                    },
                ),
            )
        } else {
            if m.requested >= m.bound {
                FeedModel::Done(m.items + env.items)
            } else {
                FeedModel::Continue(
                    AggModel {
                        page_size: m.page_size,
                        started: true,
                        bound: m.bound,
                        requested: (m.requested + 1) as u32,
                        items: m.items + env.items,
                    },
                )
            }
        }
    }
}

/// What one response body does to a run, reading the body as one JSON
/// document and then as a page envelope.
pub open spec fn spec_feed(m: AggModel, parsed: Option<JsonValue>) -> FeedModel {
    match parsed {
        None => FeedModel::Failed(spec_fail(m, DecodeError::Malformed)),
        Some(j) => match spec_decode_envelope(j) {
            Err(e) => FeedModel::Failed(spec_fail(m, e)),
            Ok(env) => spec_absorb(m, env),
        },
    }
}

/// The aggregation engine: it names the page to request; the caller performs
/// that one request and feeds the response body back. Responses are absorbed
/// strictly in page order, one per request.
#[derive(Debug, PartialEq, Eq)]
pub struct PageAggregator {
    pub page_size: u32,
    pub started: bool,
    pub bound: u32,
    pub requested: u32,
    pub items: Vec<Entry>,
}

impl View for PageAggregator {
    type V = AggModel;

    open spec fn view(&self) -> AggModel {
        AggModel {
            page_size: self.page_size,
            started: self.started,
            bound: self.bound,
            requested: self.requested,
            items: self.items@,
        }
    }
}

/// What the run hands back after one response.
#[derive(Debug)]
pub enum FeedOutcome {
    /// More pages remain: drive the returned state on.
    Continue(PageAggregator),
    /// The collection is complete, in page-then-within-page order.
    Done(Entries),
    /// The run failed; nothing of it survives.
    Failed(FetchError),
}

/// How an outcome of the engine reads as the model's verdict.
pub open spec fn outcome_models(r: FeedOutcome, m: FeedModel) -> bool {
    match r {
        FeedOutcome::Continue(a) => m matches FeedModel::Continue(am) && a@ == am,
        FeedOutcome::Done(es) => m == FeedModel::Done(es@),
        FeedOutcome::Failed(e) => m == FeedModel::Failed(e),
    }
}

impl PageAggregator {
    /// Starts a run: the first request is page 1 with the given size.
    pub fn new(page_size: u32) -> (a: PageAggregator)
        ensures
            a@ == spec_new(page_size),
    {
        PageAggregator {
            page_size,
            started: false,
            bound: 0,
            requested: 1,
            items: Vec::new(),
        }
    }

    /// The outstanding request: page number and page size.
    pub fn next_request(&self) -> (r: (u32, u32))
        ensures
            r.0 == self@.requested,
            r.1 == self@.page_size,
    {
        (self.requested, self.page_size)
    }

    fn absorb(self, env: PageEnvelope) -> (r: FeedOutcome)
        ensures
            outcome_models(r, spec_absorb(self@, env@)),
    {
        let mut st = self;
        if !st.started {
            if env.pages == 0 || env.total == 0 {
                FeedOutcome::Done(Vec::new())
            } else if env.pages <= 1 {
                FeedOutcome::Done(env.items)
            } else {
                st.started = true;
                st.bound = env.pages;
                st.requested = 2;
                st.items = env.items;
                FeedOutcome::Continue(st)
            }
        } else {
            if st.requested < st.bound && env.items.len() < st.page_size as usize {
                FeedOutcome::Failed(
                    FetchError::Abort(
                        AggregationAbort::ShortPage {
                            page: st.requested,
                            expected: st.page_size,
                            got: env.items.len(),
                        },
                    ),
                )
            } else {
                let mut more = env.items;
                st.items.append(&mut more);
                if st.requested >= st.bound {
                    FeedOutcome::Done(st.items)
                } else {
                    st.requested = st.requested + 1;
                    FeedOutcome::Continue(st)
                }
            }
        }
    }

    /// Feeds one already-parsed response document into the run. Whatever
    /// the document holds, the outcome follows the model's verdict on it.
    pub fn feed_parsed(self, parsed: Option<JsonValue>) -> (r: FeedOutcome)
        ensures
            outcome_models(r, spec_feed(self@, parsed)),
    {
        match parsed {
            None => {
                if !self.started {
                    FeedOutcome::Failed(FetchError::Decode(DecodeError::Malformed))
                } else {
                    FeedOutcome::Failed(
                        FetchError::Abort(
                            AggregationAbort::Undecodable {
                                page: self.requested,
                                cause: DecodeError::Malformed,
                            },
                        ),
                    )
                }
            },
            Some(j) => match decode_envelope(j) {
                Err(e) => {
                    if !self.started {
                        FeedOutcome::Failed(FetchError::Decode(e))
                    } else {
                        FeedOutcome::Failed(
                            FetchError::Abort(
                                AggregationAbort::Undecodable { page: self.requested, cause: e },
                            ),
                        )
                    }
                },
                Ok(env) => self.absorb(env),
            },
        }
    }

    /// Feeds one raw response body into the run.
    pub fn feed(self, body: &[u8]) -> (r: FeedOutcome)
        ensures
            outcome_models(r, spec_feed(self@, json_of(body@))),
    {
        let parsed = parse_document(body);
        self.feed_parsed(parsed)
    }
}

/// One run over a row of response bodies: each body is fed in turn while
/// the run continues; the first final verdict stands.
pub open spec fn spec_drive(m: AggModel, bodies: Seq<Seq<u8>>) -> FeedModel
    decreases bodies.len(),
{
    if bodies.len() == 0 {
        FeedModel::Continue(m)
    } else {
        match spec_feed(m, json_of(bodies[0])) {
            FeedModel::Continue(m2) => spec_drive(m2, bodies.drop_first()),
            verdict => verdict,
        }
    }
}

proof fn lemma_drive_snoc(m: AggModel, bodies: Seq<Seq<u8>>, b: Seq<u8>)
    requires
        spec_drive(m, bodies) is Continue,
    ensures
        spec_drive(m, bodies.push(b)) == spec_feed(
            spec_drive(m, bodies)->Continue_0,
            json_of(b),
        ),
    decreases bodies.len(),
{
    if bodies.len() == 0 {
        assert(bodies.push(b)[0] == b);
        assert(bodies.push(b).drop_first() =~= Seq::<Seq<u8>>::empty());
        let stepped = spec_feed(m, json_of(b));
        if stepped is Continue {
            assert(spec_drive(stepped->Continue_0, Seq::<Seq<u8>>::empty())
                == FeedModel::Continue(stepped->Continue_0));
        }
    } else {
        let stepped = spec_feed(m, json_of(bodies[0]));
        assert(stepped is Continue);
        lemma_drive_snoc(stepped->Continue_0, bodies.drop_first(), b);
        assert(bodies.push(b)[0] == bodies[0]);
        assert(bodies.push(b).drop_first() =~= bodies.drop_first().push(b));
    }
}

proof fn lemma_feed_continue_in_bounds(m: AggModel, parsed: Option<JsonValue>)
    requires
        m.started ==> m.requested <= m.bound,
        spec_feed(m, parsed) is Continue,
    ensures
        ({
            let m2 = spec_feed(m, parsed)->Continue_0;
            &&& m2.started
            &&& m2.requested <= m2.bound
            &&& m2.page_size == m.page_size
            &&& m.started ==> m2.bound - m2.requested < m.bound - m.requested
        }),
{
}

/// Walks a whole paginated listing: page 1 is requested with the given page
/// size, the first envelope fixes the page count, and the remaining pages
/// are requested in order. The endpoint stands for one request and response;
/// a failure it reports becomes a `Transport` error and ends the run. Every
/// outcome — the complete ordered collection, or the first failure with
/// nothing — is the model's verdict on the very responses that came back.
pub fn fetch_all<F: Fn(u32, u32) -> Result<Vec<u8>, String>>(endpoint: &F, page_size: u32) -> (r:
    Result<Entries, FetchError>)
    requires
        forall|p: u32, l: u32| call_requires(*endpoint, (p, l)),
    ensures
        r matches Err(FetchError::Transport(_)) || (exists|bodies: Seq<Seq<u8>>|
            spec_drive(spec_new(page_size), bodies) == (match r {
                Ok(es) => FeedModel::Done(es@),
                Err(e) => FeedModel::Failed(e),
            })),
{
    let mut agg = PageAggregator::new(page_size);
    let ghost mut bodies: Seq<Seq<u8>> = Seq::empty();
    loop
        invariant
            forall|p: u32, l: u32| call_requires(*endpoint, (p, l)),
            spec_drive(spec_new(page_size), bodies) == FeedModel::Continue(agg@),
            agg@.started ==> agg@.requested <= agg@.bound,
        decreases (if agg@.started {
            (agg@.bound - agg@.requested) as int
        } else {
            u32::MAX as int + 1
        }),
    {
        let (page, limit) = agg.next_request();
        let body = match (endpoint)(page, limit) {
            Ok(b) => b,
            Err(msg) => return Err(FetchError::Transport(msg)),
        };
        let ghost prev: AggModel = agg@;
        let outcome = agg.feed(body.as_slice());
        proof {
            lemma_drive_snoc(spec_new(page_size), bodies, body@);
            bodies = bodies.push(body@);
        }
        match outcome {
            FeedOutcome::Continue(next) => {
                proof {
                    lemma_feed_continue_in_bounds(prev, json_of(body@));
                }
                agg = next;
            },
            FeedOutcome::Done(entries) => {
                proof {
                    assert(spec_drive(spec_new(page_size), bodies) == FeedModel::Done(entries@));
                }
                return Ok(entries);
            },
            FeedOutcome::Failed(err) => {
                proof {
                    assert(spec_drive(spec_new(page_size), bodies) == FeedModel::Failed(err));
                }
                return Err(err);
            },
        }
    }
}

/// Driving a three-page collection: the run asks for pages 1, 2 and 3, one
/// request per page, and finishes with the pages' items concatenated in page
/// order; the result's length is the sum of the three page lengths.
pub proof fn lemma_three_page_run(
    size: u32,
    j1: JsonValue,
    j2: JsonValue,
    j3: JsonValue,
    e1: EnvelopeModel,
    e2: EnvelopeModel,
    e3: EnvelopeModel,
)
    requires
        spec_decode_envelope(j1) == Ok::<EnvelopeModel, DecodeError>(e1),
        spec_decode_envelope(j2) == Ok::<EnvelopeModel, DecodeError>(e2),
        spec_decode_envelope(j3) == Ok::<EnvelopeModel, DecodeError>(e3),
        e1.pages == 3,
        e1.total > 0,
        e2.items.len() >= size,
    ensures
        ({
            let m1 = AggModel {
                page_size: size,
                started: true,
                bound: 3,
                requested: 2,
                items: e1.items,
            };
            let m2 = AggModel {
                page_size: size,
                started: true,
                bound: 3,
                requested: 3,
                items: e1.items + e2.items,
            };
            &&& spec_new(size).requested == 1
            &&& spec_feed(spec_new(size), Some(j1)) == FeedModel::Continue(m1)
            &&& spec_feed(m1, Some(j2)) == FeedModel::Continue(m2)
            &&& spec_feed(m2, Some(j3)) == FeedModel::Done(e1.items + e2.items + e3.items)
            &&& (e1.items + e2.items + e3.items).len() == e1.items.len() + e2.items.len()
                + e3.items.len()
        }),
{
}

/// An empty collection: a first page reporting zero pages or a zero total
/// ends the run at once, after that single request, with an empty result.
pub proof fn lemma_empty_collection(size: u32, j: JsonValue, e: EnvelopeModel)
    requires
        spec_decode_envelope(j) == Ok::<EnvelopeModel, DecodeError>(e),
        e.pages == 0 || e.total == 0,
    ensures
        spec_feed(spec_new(size), Some(j)) == FeedModel::Done(Seq::<Entry>::empty()),
{
}

/// When page 2 of a three-page collection cannot be decoded — whether the
/// bytes are not JSON at all, or the envelope is rejected — the whole run
/// fails, naming the page, and no partial list survives.
pub proof fn lemma_later_page_failure_aborts(
    size: u32,
    j1: JsonValue,
    e1: EnvelopeModel,
    j2: JsonValue,
    cause: DecodeError,
)
    requires
        spec_decode_envelope(j1) == Ok::<EnvelopeModel, DecodeError>(e1),
        e1.pages == 3,
        e1.total > 0,
        spec_decode_envelope(j2) == Err::<EnvelopeModel, DecodeError>(cause),
    ensures
        ({
            let m1 = AggModel {
                page_size: size,
                started: true,
                bound: 3,
                requested: 2,
                items: e1.items,
            };
            &&& spec_feed(spec_new(size), Some(j1)) == FeedModel::Continue(m1)
            &&& spec_feed(m1, Some(j2)) == FeedModel::Failed(
                FetchError::Abort(AggregationAbort::Undecodable { page: 2, cause }),
            )
            &&& spec_feed(m1, None) == FeedModel::Failed(
                FetchError::Abort(
                    AggregationAbort::Undecodable { page: 2, cause: DecodeError::Malformed },
                ),
            )
        }),
{
}

} // verus!
