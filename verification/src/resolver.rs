//! The resolution of a model and a prompt template, from what was given on
//! the command line to a pair that a backend can be started with.
//!
//! The workflow asks for things that only its surroundings can do: list a
//! directory, let a person choose or type, fetch and store a file. It is
//! written as a state machine: [`Resolution::request`] says what is wanted,
//! the caller does it and hands the answer to [`Resolution::advance`]. Nothing
//! here waits, reads or writes.

use vstd::prelude::*;
use vstd::string::*;
use crate::acquire::{
    acquire, filename_of, url_path_segments, AcquireError, AcquireErrorView, Acquisition,
    AcquisitionView, ModelReference, ModelReferenceView, Transfer, TransferView,
};
use crate::cache::{cached_models, scan, DirectoryListing, ScanError};
use crate::template::{
    catalog, catalog_ids, lemma_catalog, lemma_catalog_len, listed_ids, PromptTemplateType,
    TemplateParseError, TemplateParseErrorView, CATALOG_LEN,
};
use crate::text::texts;

verus! {

/// The model and the template that a backend is to be started with.
#[derive(Clone, Debug, PartialEq, Eq)]
pub struct ResolvedSelection {
    /// The path of the model file.
    pub model_path: String,
    /// The prompt template to run it with.
    pub template: PromptTemplateType,
}

/// The model of a [`ResolvedSelection`].
pub ghost struct ResolvedSelectionView {
    pub model_path: Seq<char>,
    pub template: PromptTemplateType,
}

impl View for ResolvedSelection {
    type V = ResolvedSelectionView;

    open spec fn view(&self) -> ResolvedSelectionView {
        ResolvedSelectionView { model_path: self.model_path@, template: self.template }
    }
}

/// Why a resolution ended without a selection, by the stage that failed.
#[derive(Clone, Debug, PartialEq, Eq)]
pub enum ResolveError {
    /// The directory to look for cached models in could not be listed.
    DirectoryUnreadable,
    /// The person left the list of models without choosing.
    ModelSelectionCancelled,
    /// The person left the list of templates without choosing.
    TemplateSelectionCancelled,
    /// The model could not be acquired.
    Acquire(AcquireError),
    /// The chosen identifier was not read as a template. The list of
    /// templates holds canonical ids only, so a choice from it never ends so.
    Parse(TemplateParseError),
}

/// The model of a [`ResolveError`].
pub ghost enum ResolveErrorView {
    DirectoryUnreadable,
    ModelSelectionCancelled,
    TemplateSelectionCancelled,
    Acquire(AcquireErrorView),
    Parse(TemplateParseErrorView),
}

impl View for ResolveError {
    type V = ResolveErrorView;

    open spec fn view(&self) -> ResolveErrorView {
        match *self {
            ResolveError::DirectoryUnreadable => ResolveErrorView::DirectoryUnreadable,
            ResolveError::ModelSelectionCancelled => ResolveErrorView::ModelSelectionCancelled,
            ResolveError::TemplateSelectionCancelled => {
                ResolveErrorView::TemplateSelectionCancelled
            },
            ResolveError::Acquire(e) => ResolveErrorView::Acquire(e@),
            ResolveError::Parse(e) => ResolveErrorView::Parse(e@),
        }
    }
}

/// What the workflow wants done before it can go on.
#[derive(Clone, Debug, PartialEq, Eq)]
pub enum Request {
    /// List the working directory.
    ListDirectory,
    /// Show `options` in this order under `prompt`, with the one at
    /// `default_index` marked, and let a person pick one or leave.
    Choose { prompt: String, options: Vec<String>, default_index: usize },
    /// Let a person type a line under `prompt`.
    Input { prompt: String },
    /// Make a GET request to `url`, following redirects.
    Fetch { url: String },
    /// Write the body of the response to the file `filename` in the working
    /// directory, replacing one that is there.
    Store { filename: String },
}

/// The model of a [`Request`].
pub ghost enum RequestView {
    ListDirectory,
    Choose { prompt: Seq<char>, options: Seq<Seq<char>>, default_index: usize },
    Input { prompt: Seq<char> },
    Fetch { url: Seq<char> },
    Store { filename: Seq<char> },
}

impl View for Request {
    type V = RequestView;

    open spec fn view(&self) -> RequestView {
        match *self {
            Request::ListDirectory => RequestView::ListDirectory,
            Request::Choose { prompt, options, default_index } => RequestView::Choose {
                prompt: prompt@,
                options: texts(options@),
                default_index,
            },
            Request::Input { prompt } => RequestView::Input { prompt: prompt@ },
            Request::Fetch { url } => RequestView::Fetch { url: url@ },
            Request::Store { filename } => RequestView::Store { filename: filename@ },
        }
    }
}

/// The answer to a [`Request`].
#[derive(Clone, Debug, PartialEq, Eq)]
pub enum Reply {
    /// What listing the directory gave.
    Listed(DirectoryListing),
    /// The position that the person picked, or `None` if they left.
    Chosen(Option<usize>),
    /// The line that the person typed.
    Entered(String),
    /// How the request, or the storing, went.
    Transferred(Transfer),
}

/// The model of a [`Reply`]. Of a listing it keeps what counts: the cached
/// models in it, or that it could not be had.
pub ghost enum ReplyView {
    Listed(Result<Seq<Seq<char>>, ScanError>),
    Chosen(Option<usize>),
    Entered(Seq<char>),
    Transferred(TransferView),
}

impl View for Reply {
    type V = ReplyView;

    open spec fn view(&self) -> ReplyView {
        match *self {
            Reply::Listed(DirectoryListing::Unreadable) => ReplyView::Listed(
                Err(ScanError::DirectoryUnreadable),
            ),
            Reply::Listed(DirectoryListing::Entries(entries)) => ReplyView::Listed(
                Ok(cached_models(entries@)),
            ),
            Reply::Chosen(choice) => ReplyView::Chosen(choice),
            Reply::Entered(line) => ReplyView::Entered(line@),
            Reply::Transferred(transfer) => ReplyView::Transferred(transfer@),
        }
    }
}

/// How far a resolution has come.
#[derive(Clone, Debug, PartialEq, Eq)]
pub enum Resolution {
    /// No model was named: the working directory is to be searched.
    Scanning,
    /// Cached models were found, and one of them, or none, is to be chosen.
    ChoosingModel { cached: Vec<String> },
    /// A URL to download the model from is to be typed.
    EnteringUrl,
    /// The model is being downloaded.
    Acquiring(Acquisition),
    /// The model is settled, and a template is to be chosen.
    ChoosingTemplate { model_path: String },
    /// Both are settled.
    Resolved(ResolvedSelection),
    /// The resolution was given up.
    Failed(ResolveError),
}

/// The model of a [`Resolution`].
pub ghost enum ResolutionView {
    Scanning,
    ChoosingModel { cached: Seq<Seq<char>> },
    EnteringUrl,
    Acquiring(AcquisitionView),
    ChoosingTemplate { model_path: Seq<char> },
    Resolved(ResolvedSelectionView),
    Failed(ResolveErrorView),
}

impl View for Resolution {
    type V = ResolutionView;

    open spec fn view(&self) -> ResolutionView {
        match *self {
            Resolution::Scanning => ResolutionView::Scanning,
            Resolution::ChoosingModel { cached } => ResolutionView::ChoosingModel {
                cached: texts(cached@),
            },
            Resolution::EnteringUrl => ResolutionView::EnteringUrl,
            Resolution::Acquiring(acquisition) => ResolutionView::Acquiring(acquisition@),
            Resolution::ChoosingTemplate { model_path } => ResolutionView::ChoosingTemplate {
                model_path: model_path@,
            },
            Resolution::Resolved(selection) => ResolutionView::Resolved(selection@),
            Resolution::Failed(e) => ResolutionView::Failed(e@),
        }
    }
}

/// The heading of the list of cached models.
pub open spec fn model_prompt() -> Seq<char> {
    "Select a cached model"@
}

/// The last entry of the list of cached models, which stands for "none of
/// these" and says where models can be found.
pub open spec fn catalog_hint() -> Seq<char> {
    "Or choose one from: https://huggingface.co/second-state?sort_models=modified#models or https://huggingface.co/models?sort=trending&search=gguf"@
}

/// The heading of the line in which a URL is typed.
pub open spec fn url_prompt() -> Seq<char> {
    "Enter the model url"@
}

/// The heading of the list of templates.
pub open spec fn template_prompt() -> Seq<char> {
    "Select a prompt template"@
}

impl ResolutionView {
    /// Where the resolution stands once the acquisition of the model has
    /// come to `acquisition`: an acquired model leads on to the template, a
    /// failure ends the resolution, and anything else is still under way.
    pub open spec fn settled(acquisition: AcquisitionView) -> ResolutionView {
        match acquisition {
            AcquisitionView::Acquired(path) => ResolutionView::ChoosingTemplate {
                model_path: path,
            },
            AcquisitionView::Failed(e) => ResolutionView::Failed(ResolveErrorView::Acquire(e)),
            _ => ResolutionView::Acquiring(acquisition),
        }
    }

    /// Where a resolution begins. A model that was named is taken as a local
    /// path, and nothing is searched or fetched.
    pub open spec fn begun(model: Option<Seq<char>>) -> ResolutionView {
        match model {
            Some(path) => Self::settled(AcquisitionView::begun(ModelReferenceView::Local(path))),
            None => ResolutionView::Scanning,
        }
    }

    /// What is wanted in this state, if anything is.
    pub open spec fn requested(self) -> Option<RequestView> {
        match self {
            ResolutionView::Scanning => Some(RequestView::ListDirectory),
            ResolutionView::ChoosingModel { cached } => Some(
                RequestView::Choose {
                    prompt: model_prompt(),
                    options: cached.push(catalog_hint()),
                    default_index: 0,
                },
            ),
            ResolutionView::EnteringUrl => Some(RequestView::Input { prompt: url_prompt() }),
            ResolutionView::Acquiring(AcquisitionView::Fetching { url }) => Some(
                RequestView::Fetch { url },
            ),
            ResolutionView::Acquiring(AcquisitionView::Storing { filename }) => Some(
                RequestView::Store { filename },
            ),
            ResolutionView::ChoosingTemplate { .. } => Some(
                RequestView::Choose {
                    prompt: template_prompt(),
                    options: catalog_ids(),
                    default_index: 0,
                },
            ),
            _ => None,
        }
    }

    /// Where the resolution stands after `reply`. A reply that does not
    /// answer what was asked for changes nothing, and neither does a position
    /// that is not in the list of templates.
    pub open spec fn next(self, reply: ReplyView) -> ResolutionView {
        match (self, reply) {
            (ResolutionView::Scanning, ReplyView::Listed(Err(_))) => ResolutionView::Failed(
                ResolveErrorView::DirectoryUnreadable,
            ),
            (ResolutionView::Scanning, ReplyView::Listed(Ok(cached))) => {
                if cached.len() == 0 {
                    ResolutionView::EnteringUrl
                } else {
                    ResolutionView::ChoosingModel { cached }
                }
            },
            (ResolutionView::ChoosingModel { .. }, ReplyView::Chosen(None)) => {
                ResolutionView::Failed(ResolveErrorView::ModelSelectionCancelled)
            },
            (ResolutionView::ChoosingModel { cached }, ReplyView::Chosen(Some(i))) => {
                if i < cached.len() {
                    Self::settled(AcquisitionView::begun(ModelReferenceView::Local(cached[i as int])))
                } else {
                    ResolutionView::EnteringUrl
                }
            },
            (ResolutionView::EnteringUrl, ReplyView::Entered(url)) => Self::settled(
                AcquisitionView::begun(ModelReferenceView::Remote(url)),
            ),
            (ResolutionView::Acquiring(acquisition), ReplyView::Transferred(transfer)) => {
                Self::settled(acquisition.next(transfer))
            },
            (ResolutionView::ChoosingTemplate { .. }, ReplyView::Chosen(None)) => {
                ResolutionView::Failed(ResolveErrorView::TemplateSelectionCancelled)
            },
            (ResolutionView::ChoosingTemplate { model_path }, ReplyView::Chosen(Some(i))) => {
                if i < catalog().len() {
                    ResolutionView::Resolved(
                        ResolvedSelectionView { model_path, template: catalog()[i as int] },
                    )
                } else {
                    self
                }
            },
            _ => self,
        }
    }

    /// Where the resolution stands after a row of replies, taken in order.
    pub open spec fn run(self, replies: Seq<ReplyView>) -> ResolutionView
        decreases replies.len(),
    {
        if replies.len() == 0 {
            self
        } else {
            self.run(replies.drop_last()).next(replies.last())
        }
    }

    /// Nothing is left to do: there is a selection, or there will be none.
    pub open spec fn is_final(self) -> bool {
        self is Resolved || self is Failed
    }

    /// What holds of every state that a resolution comes to: models are only
    /// offered where there are some, and an acquisition that is over is not
    /// kept waiting.
    pub open spec fn wf(self) -> bool {
        match self {
            ResolutionView::ChoosingModel { cached } => cached.len() > 0,
            ResolutionView::Acquiring(acquisition) => !acquisition.is_final(),
            _ => true,
        }
    }
}

/// A copy of a list of names.
fn copy_names(names: &Vec<String>) -> (r: Vec<String>)
    ensures
        texts(r@) == texts(names@),
{
    let mut copy: Vec<String> = Vec::new();
    let mut i: usize = 0;
    while i < names.len()
        invariant
            i <= names.len(),
            copy.len() == i,
            forall|k: int| 0 <= k < i ==> (#[trigger] copy[k])@ == names[k]@,
        decreases names.len() - i,
    {
        copy.push(names[i].clone());
        i = i + 1;
    }
    assert(texts(copy@) =~= texts(names@));
    copy
}

impl Resolution {
    /// Where the acquisition of the model leaves the resolution.
    fn settle(acquisition: Acquisition) -> (r: Resolution)
        ensures
            r@ == ResolutionView::settled(acquisition@),
    {
        match acquisition {
            Acquisition::Acquired(path) => Resolution::ChoosingTemplate { model_path: path },
            Acquisition::Failed(e) => Resolution::Failed(ResolveError::Acquire(e)),
            other => Resolution::Acquiring(other),
        }
    }

    /// Begins a resolution. With a model named, that name is the model's
    /// path and the template is all that is left to settle; with none, the
    /// working directory is searched first. The list of templates is shown
    /// in either case: a template named beforehand does not stand in for the
    /// choice, and has no part in the result.
    #[allow(unused_variables)]
    pub fn start(model: Option<String>, prompt_template: Option<PromptTemplateType>) -> (r:
        Resolution)
        ensures
            r@ == ResolutionView::begun(
                match model {
                    Some(path) => Some(path@),
                    None => None,
                },
            ),
            r@.wf(),
    {
        match model {
            Some(path) => Self::settle(acquire(ModelReference::Local(path))),
            None => Resolution::Scanning,
        }
    }

    /// What the caller is to do now, or `None` once the resolution is over.
    pub fn request(&self) -> (r: Option<Request>)
        ensures
            match r {
                Some(request) => self@.requested() == Some(request@),
                None => self@.requested() is None,
            },
    {
        match self {
            Resolution::Scanning => Some(Request::ListDirectory),
            Resolution::ChoosingModel { cached } => {
                let mut options = copy_names(cached);
                let ghost shown = options@;
                options.push(
                    String::from_str(
                        "Or choose one from: https://huggingface.co/second-state?sort_models=modified#models or https://huggingface.co/models?sort=trending&search=gguf",
                    ),
                );
                assert(texts(options@) =~= texts(shown).push(catalog_hint()));
                Some(
                    Request::Choose {
                        prompt: String::from_str("Select a cached model"),
                        options,
                        default_index: 0,
                    },
                )
            },
            Resolution::EnteringUrl => Some(
                Request::Input { prompt: String::from_str("Enter the model url") },
            ),
            Resolution::Acquiring(Acquisition::Fetching { url }) => Some(
                Request::Fetch { url: url.clone() },
            ),
            Resolution::Acquiring(Acquisition::Storing { filename }) => Some(
                Request::Store { filename: filename.clone() },
            ),
            Resolution::ChoosingTemplate { .. } => Some(
                Request::Choose {
                    prompt: String::from_str("Select a prompt template"),
                    options: listed_ids(),
                    default_index: 0,
                },
            ),
            _ => None,
        }
    }

    /// Takes the answer to what was asked for, and moves on.
    pub fn advance(self, reply: Reply) -> (r: Resolution)
        ensures
            r@ == self@.next(reply@),
            self@.wf() ==> r@.wf(),
    {
        match (self, reply) {
            (Resolution::Scanning, Reply::Listed(listing)) => {
                match scan(&listing) {
                    Err(_) => Resolution::Failed(ResolveError::DirectoryUnreadable),
                    Ok(cached) => {
                        if cached.len() == 0 {
                            Resolution::EnteringUrl
                        } else {
                            Resolution::ChoosingModel { cached }
                        }
                    },
                }
            },
            (Resolution::ChoosingModel { .. }, Reply::Chosen(None)) => Resolution::Failed(
                ResolveError::ModelSelectionCancelled,
            ),
            (Resolution::ChoosingModel { cached }, Reply::Chosen(Some(i))) => {
                if i < cached.len() {
                    Self::settle(acquire(ModelReference::Local(cached[i].clone())))
                } else {
                    Resolution::EnteringUrl
                }
            },
            (Resolution::EnteringUrl, Reply::Entered(url)) => Self::settle(
                acquire(ModelReference::Remote(url)),
            ),
            (Resolution::Acquiring(acquisition), Reply::Transferred(transfer)) => Self::settle(
                acquisition.advance(transfer),
            ),
            (Resolution::ChoosingTemplate { .. }, Reply::Chosen(None)) => Resolution::Failed(
                ResolveError::TemplateSelectionCancelled,
            ),
            (Resolution::ChoosingTemplate { model_path }, Reply::Chosen(Some(i))) => {
                let ids = listed_ids();
                if i < ids.len() {
                    proof {
                        lemma_catalog(i as int, i as int);
                    }
                    match PromptTemplateType::from_str(ids[i].as_str()) {
                        Ok(template) => Resolution::Resolved(
                            ResolvedSelection { model_path, template },
                        ),
                        Err(e) => Resolution::Failed(ResolveError::Parse(e)),
                    }
                } else {
                    Resolution::ChoosingTemplate { model_path }
                }
            },
            (state, _) => state,
        }
    }

    /// The result, once the resolution is over.
    pub fn outcome(self) -> (r: Option<Result<ResolvedSelection, ResolveError>>)
        ensures
            match self@ {
                ResolutionView::Resolved(selection) => r matches Some(Ok(s)) && s@ == selection,
                ResolutionView::Failed(error) => r matches Some(Err(e)) && e@ == error,
                _ => r is None,
            },
    {
        match self {
            Resolution::Resolved(selection) => Some(Ok(selection)),
            Resolution::Failed(e) => Some(Err(e)),
            _ => None,
        }
    }
}

/// Every state that a resolution comes to is well formed.
pub proof fn lemma_wf_is_kept(state: ResolutionView, replies: Seq<ReplyView>)
    requires
        state.wf(),
    ensures
        state.run(replies).wf(),
    decreases replies.len(),
{
    if replies.len() > 0 {
        lemma_wf_is_kept(state, replies.drop_last());
    }
}

/// A resolution that is over stays as it is, and asks for nothing more.
pub proof fn lemma_final_stays(state: ResolutionView, replies: Seq<ReplyView>)
    requires
        state.is_final(),
    ensures
        state.run(replies) == state,
        state.run(replies).requested() is None,
    decreases replies.len(),
{
    if replies.len() > 0 {
        lemma_final_stays(state, replies.drop_last());
    }
}

/// With a model named, nothing is searched, offered or fetched: the list of
/// templates is the first thing asked for, and the choice from it settles
/// the selection, with the name as the model's path.
pub proof fn lemma_named_model_is_taken(path: Seq<char>, choice: usize)
    requires
        choice < CATALOG_LEN,
    ensures
        ResolutionView::begun(Some(path)) == (ResolutionView::ChoosingTemplate {
            model_path: path,
        }),
        ResolutionView::begun(Some(path)).next(ReplyView::Chosen(Some(choice))) == (
        ResolutionView::Resolved(
            ResolvedSelectionView { model_path: path, template: catalog()[choice as int] },
        )),
{
    lemma_catalog_len();
}

/// Where the directory holds no cached model, no list of models is shown:
/// the URL is asked for at once.
pub proof fn lemma_nothing_cached_asks_for_url(cached: Seq<Seq<char>>)
    requires
        cached.len() == 0,
    ensures
        ResolutionView::Scanning.next(ReplyView::Listed(Ok(cached))) == ResolutionView::EnteringUrl,
        ResolutionView::Scanning.next(ReplyView::Listed(Ok(cached))).requested() == Some(
            RequestView::Input { prompt: url_prompt() },
        ),
{
}

/// A list of models is only ever shown with a cached model in it: it holds
/// the cached models in their order, and the hint after them.
pub proof fn lemma_models_are_offered_when_cached(state: ResolutionView)
    requires
        state.wf(),
        state.requested() matches Some(RequestView::Choose { prompt, .. }) && prompt
            == model_prompt(),
    ensures
        state is ChoosingModel,
        state->cached.len() > 0,
        state.requested() == Some(
            RequestView::Choose {
                prompt: model_prompt(),
                options: state->cached.push(catalog_hint()),
                default_index: 0,
            },
        ),
{
    reveal_strlit("Select a cached model");
    reveal_strlit("Select a prompt template");
    if state is ChoosingTemplate {
        assert(model_prompt().len() != template_prompt().len());
    }
}

/// Leaving the list of models without a choice ends the resolution with
/// `ModelSelectionCancelled`: whatever is reported afterwards, nothing is
/// asked for again, and so nothing is fetched.
pub proof fn lemma_model_cancellation_is_final(state: ResolutionView, later: Seq<ReplyView>)
    requires
        state is ChoosingModel,
    ensures
        state.next(ReplyView::Chosen(None)) == ResolutionView::Failed(
            ResolveErrorView::ModelSelectionCancelled,
        ),
        state.next(ReplyView::Chosen(None)).run(later).requested() is None,
{
    lemma_final_stays(state.next(ReplyView::Chosen(None)), later);
}

/// Leaving the list of templates without a choice ends the resolution with
/// `TemplateSelectionCancelled`.
pub proof fn lemma_template_cancellation_is_final(state: ResolutionView, later: Seq<ReplyView>)
    requires
        state is ChoosingTemplate,
    ensures
        state.next(ReplyView::Chosen(None)) == ResolutionView::Failed(
            ResolveErrorView::TemplateSelectionCancelled,
        ),
        state.next(ReplyView::Chosen(None)).run(later).requested() is None,
{
    lemma_final_stays(state.next(ReplyView::Chosen(None)), later);
}

/// A request is only made to a URL that was typed in answer to the prompt,
/// and that is one.
pub proof fn lemma_fetch_follows_entry(state: ResolutionView, reply: ReplyView)
    requires
        state.wf(),
        state.next(reply) != state,
        state.next(reply).requested() is Some,
        state.next(reply).requested().unwrap() is Fetch,
    ensures
        state is EnteringUrl,
        reply is Entered,
        state.next(reply).requested().unwrap()->url == reply->Entered_0,
        url_path_segments(reply->Entered_0) is Some,
{
}

/// A file is only written once a response has come, and under the name that
/// the URL of the response gives. A response whose URL gives none ends the
/// resolution before any file is asked for.
pub proof fn lemma_store_follows_response(state: ResolutionView, reply: ReplyView)
    requires
        state.wf(),
        state.requested() == Some(RequestView::Fetch { url: state->Acquiring_0->url }),
        reply is Transferred,
        reply->Transferred_0 is Responded,
    ensures
        match filename_of(url_path_segments(reply->Transferred_0->final_url)) {
            Ok(filename) => state.next(reply).requested() == Some(RequestView::Store { filename }),
            Err(e) => state.next(reply) == ResolutionView::Failed(ResolveErrorView::Acquire(e))
                && state.next(reply).requested() is None,
        },
{
}

/// A selection that is reached names a model that was given, chosen from
/// the cached ones, or stored; and a template of the list.
pub proof fn lemma_selection_follows_template_choice(state: ResolutionView, reply: ReplyView)
    requires
        !state.is_final(),
        state.next(reply) is Resolved,
    ensures
        state is ChoosingTemplate,
        reply is Chosen,
        reply->Chosen_0 is Some,
        reply->Chosen_0.unwrap() < CATALOG_LEN,
        state.next(reply)->Resolved_0 == (ResolvedSelectionView {
            model_path: state->model_path,
            template: catalog()[reply->Chosen_0.unwrap() as int],
        }),
{
    lemma_catalog_len();
}

} // verus!
