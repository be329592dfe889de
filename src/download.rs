use vstd::prelude::*;

verus! {

/// What one fetch of a location gives.
pub enum FetchOutcome {
    /// The body of a successful response.
    Success(Vec<u8>),
    /// The server reports the resource unchanged.
    NotModified,
    /// The resource lives at another location.
    Redirect(String),
    /// The request failed, or the server answered with an error status.
    Failed,
}

/// What the downloader asks for next.
pub enum DownloadStep {
    /// Fetch this location.
    Fetch(String),
    /// The archive: the body of the final response.
    Done(Vec<u8>),
    /// A response that a plain request can never bring.
    Defect,
    /// The release cannot be fetched: the upgrade stops, with no retry.
    Abort,
}

pub enum OutcomeModel {
    Success(Seq<u8>),
    NotModified,
    Redirect(Seq<char>),
    Failed,
}

pub enum StepModel {
    Fetch(Seq<char>),
    Done(Seq<u8>),
    Defect,
    Abort,
}

pub struct DownloadModel {
    pub url: Seq<char>,
    pub fetches: nat,
}

impl View for FetchOutcome {
    type V = OutcomeModel;

    open spec fn view(&self) -> OutcomeModel {
        match self {
            FetchOutcome::Success(b) => OutcomeModel::Success(b@),
            FetchOutcome::NotModified => OutcomeModel::NotModified,
            FetchOutcome::Redirect(u) => OutcomeModel::Redirect(u@),
            FetchOutcome::Failed => OutcomeModel::Failed,
        }
    }
}

impl View for DownloadStep {
    type V = StepModel;

    open spec fn view(&self) -> StepModel {
        match self {
            DownloadStep::Fetch(u) => StepModel::Fetch(u@),
            DownloadStep::Done(b) => StepModel::Done(b@),
            DownloadStep::Defect => StepModel::Defect,
            DownloadStep::Abort => StepModel::Abort,
        }
    }
}

/// Follows redirects from a first location until a response has a body.
pub struct Downloader {
    /// The location fetched last, or to fetch first.
    pub url: String,
    /// How many fetches were issued.
    pub fetches: u64,
}

impl View for Downloader {
    type V = DownloadModel;

    open spec fn view(&self) -> DownloadModel {
        DownloadModel { url: self.url@, fetches: self.fetches as nat }
    }
}

/// The state once a fetch of the current location is issued.
pub open spec fn after_fetch(s: DownloadModel) -> DownloadModel {
    DownloadModel { url: s.url, fetches: s.fetches + 1 }
}

/// The decision on the outcome of a fetch.
pub open spec fn decide(s: DownloadModel, o: OutcomeModel) -> (DownloadModel, StepModel) {
    match o {
        OutcomeModel::Success(b) => (s, StepModel::Done(b)),
        OutcomeModel::NotModified => (s, StepModel::Defect),
        OutcomeModel::Failed => (s, StepModel::Abort),
        OutcomeModel::Redirect(u) => (DownloadModel { url: u, fetches: s.fetches }, StepModel::Fetch(u)),
    }
}

/// Runs the downloader against a series of outcomes, one per fetch, until a
/// step other than a fetch comes, or the outcomes run out.
pub open spec fn drive(s: DownloadModel, outs: Seq<OutcomeModel>) -> (DownloadModel, StepModel)
    decreases outs.len(),
{
    if outs.len() == 0 {
        (s, StepModel::Fetch(s.url))
    } else {
        let (s2, st) = decide(after_fetch(s), outs[0]);
        match st {
            StepModel::Fetch(_) => drive(s2, outs.drop_first()),
            _ => (s2, st),
        }
    }
}

/// Outcomes of a chain of redirects through `hops`, then a body.
pub open spec fn redirect_chain(hops: Seq<Seq<char>>, body: Seq<u8>) -> Seq<OutcomeModel> {
    hops.map_values(|u: Seq<char>| OutcomeModel::Redirect(u)).push(OutcomeModel::Success(body))
}

impl Downloader {
    /// A downloader that will fetch `url` first.
    pub fn new(url: String) -> (r: Downloader)
        ensures
            r@ == (DownloadModel { url: url@, fetches: 0 }),
    {
        Downloader { url, fetches: 0 }
    }

    /// Records that the current location is fetched, and hands it out.
    pub fn begin_fetch(&mut self) -> (r: String)
        requires
            old(self).fetches < u64::MAX,
        ensures
            final(self)@ == after_fetch(old(self)@),
            r@ == old(self).url@,
    {
        self.fetches = self.fetches + 1;
        self.url.clone()
    }

    /// Decides what follows the outcome of the last fetch: a body ends the
    /// download, a redirect is followed, a failed fetch ends it without a
    /// retry, and a not-modified answer is a defect.
    pub fn on_outcome(&mut self, outcome: FetchOutcome) -> (r: DownloadStep)
        ensures
            (final(self)@, r@) == decide(old(self)@, outcome@),
    {
        match outcome {
            FetchOutcome::Success(body) => DownloadStep::Done(body),
            FetchOutcome::NotModified => DownloadStep::Defect,
            FetchOutcome::Failed => DownloadStep::Abort,
            FetchOutcome::Redirect(u) => {
                let next = u.clone();
                self.url = u;
                DownloadStep::Fetch(next)
            },
        }
    }
}

/// After `n` redirects and then a body, the download ends with that body,
/// having issued `n + 1` fetches, the last of them to the last redirect's
/// target.
pub proof fn lemma_redirect_chain(s: DownloadModel, hops: Seq<Seq<char>>, body: Seq<u8>)
    ensures
        drive(s, redirect_chain(hops, body)).1 == StepModel::Done(body),
        drive(s, redirect_chain(hops, body)).0.fetches == s.fetches + hops.len() + 1,
        drive(s, redirect_chain(hops, body)).0.url == (if hops.len() == 0 {
            s.url
        } else {
            hops.last()
        }),
    decreases hops.len(),
{
    let outs = redirect_chain(hops, body);
    if hops.len() == 0 {
        assert(outs[0] == OutcomeModel::Success(body));
    } else {
        assert(outs[0] == OutcomeModel::Redirect(hops[0]));
        let s2 = DownloadModel { url: hops[0], fetches: s.fetches + 1 };
        assert(outs.drop_first() =~= redirect_chain(hops.drop_first(), body));
        lemma_redirect_chain(s2, hops.drop_first(), body);
    }
}

} // verus!
