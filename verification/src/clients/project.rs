//! The projects interface and the resolution of project references.

use crate::errors::{lemma_unified_message_nonempty, unified_message, ErrorShape, ProjectError};
use crate::model::project_ref::{ProjectRef, ProjectRefView};
use crate::model::{GolemError, ProjectId};
use uuid::Uuid;
use vstd::prelude::*;
use vstd::string::*;

verus! {

/// A question to the projects interface.
#[derive(PartialEq, Eq, Debug)]
pub enum ProjectLookup {
    /// The projects with this name.
    ByName(String),
    /// The caller's default project.
    Default,
}

/// A lookup with its name as a sequence of characters.
pub enum ProjectLookupView {
    ByName(Seq<char>),
    Default,
}

impl View for ProjectLookup {
    type V = ProjectLookupView;

    open spec fn view(&self) -> ProjectLookupView {
        match self {
            ProjectLookup::ByName(name) => ProjectLookupView::ByName(name@),
            ProjectLookup::Default => ProjectLookupView::Default,
        }
    }
}

impl Clone for ProjectLookup {
    fn clone(&self) -> (res: ProjectLookup)
        ensures
            res@ == self@,
    {
        match self {
            ProjectLookup::ByName(name) => ProjectLookup::ByName(name.clone()),
            ProjectLookup::Default => ProjectLookup::Default,
        }
    }
}

/// The backend's projects interface.
pub trait ProjectClient {
    /// The projects that a lookup matches, in the order in which the backend
    /// lists them. One call.
    fn find(&self, lookup: &ProjectLookup) -> Result<Vec<ProjectId>, ProjectError>;
}

/// What resolving a reference takes: nothing more, or one lookup.
#[derive(PartialEq, Eq, Debug)]
pub enum Resolution {
    Resolved(ProjectId),
    Lookup(ProjectLookup),
}

/// A resolution with its name as a sequence of characters.
pub enum ResolutionView {
    Resolved(Uuid),
    Lookup(ProjectLookupView),
}

impl View for Resolution {
    type V = ResolutionView;

    open spec fn view(&self) -> ResolutionView {
        match self {
            Resolution::Resolved(id) => ResolutionView::Resolved(id.0),
            Resolution::Lookup(lookup) => ResolutionView::Lookup(lookup@),
        }
    }
}

/// What a reference takes to resolve, given the default project that is
/// already known, if any. An identifier stands for itself. A name takes a
/// lookup by that name. The default takes a lookup only while it is unknown.
pub open spec fn planned(known_default: Option<Uuid>, project_ref: ProjectRefView)
    -> ResolutionView {
    match project_ref {
        ProjectRefView::Id(id) => ResolutionView::Resolved(id),
        ProjectRefView::Name(name) => ResolutionView::Lookup(ProjectLookupView::ByName(name)),
        ProjectRefView::Default => match known_default {
            Some(id) => ResolutionView::Resolved(id),
            None => ResolutionView::Lookup(ProjectLookupView::Default),
        },
    }
}

/// What is said of a lookup that matched nothing.
pub open spec fn missing(lookup: ProjectLookupView) -> Seq<char> {
    match lookup {
        ProjectLookupView::ByName(name) => "project "@ + name,
        ProjectLookupView::Default => "default project"@,
    }
}

/// The answer of the projects interface as identifiers and an error shape.
pub open spec fn lookup_outcome(outcome: Result<Vec<ProjectId>, ProjectError>) -> Result<
    Seq<Uuid>,
    ErrorShape,
> {
    match outcome {
        Ok(found) => Ok(found@.map_values(|p: ProjectId| p.0)),
        Err(e) => Err(e.shape()),
    }
}

/// The project that a lookup's answer resolves to, or the message of the
/// failure. A backend error keeps its own message. No match is a not-found
/// error. Of several matches the first in the backend's order is taken.
pub open spec fn concluded(lookup: ProjectLookupView, outcome: Result<Seq<Uuid>, ErrorShape>)
    -> Result<Uuid, Seq<char>> {
    match outcome {
        Err(shape) => Err(unified_message(shape)),
        Ok(found) => if found.len() == 0 {
            Err(unified_message(ErrorShape::NotFound { message: missing(lookup) }))
        } else {
            Ok(found[0])
        },
    }
}

/// Whether a resolution's end is the one described: the same project, or a
/// failure with the same message.
pub open spec fn resolves_as(end: Result<ProjectId, GolemError>, described: Result<Uuid, Seq<char>>)
    -> bool {
    match described {
        Ok(id) => end matches Ok(found) && found.0 == id,
        Err(message) => end matches Err(e) && e@ == message,
    }
}

/// Whether an answer is one that the interface gives to the lookup.
pub open spec fn answered<P: ProjectClient>(
    projects: &P,
    lookup: ProjectLookupView,
    outcome: Result<Vec<ProjectId>, ProjectError>,
) -> bool {
    exists|asked: ProjectLookup|
        asked@ == lookup && call_ensures(P::find, (projects, &asked), outcome)
}

/// The default project that is known after a lookup's answer: the one that
/// a lookup of the default found, else what was known before.
pub open spec fn remembered(
    known_default: Option<Uuid>,
    lookup: ProjectLookupView,
    outcome: Result<Seq<Uuid>, ErrorShape>,
) -> Option<Uuid> {
    match (lookup, concluded(lookup, outcome)) {
        (ProjectLookupView::Default, Ok(id)) => Some(id),
        _ => known_default,
    }
}

/// An identifier resolves to itself without a lookup, whatever is known.
pub proof fn lemma_id_needs_no_lookup(known_default: Option<Uuid>, id: Uuid)
    ensures
        planned(known_default, ProjectRefView::Id(id)) == ResolutionView::Resolved(id),
{
}

/// A known default project is never looked up again.
pub proof fn lemma_known_default_needs_no_lookup(id: Uuid)
    ensures
        planned(Some(id), ProjectRefView::Default) == ResolutionView::Resolved(id),
{
}

/// Once a lookup of the default has succeeded, the default resolves to what
/// it found, without another lookup.
pub proof fn lemma_default_is_looked_up_once(
    known_default: Option<Uuid>,
    outcome: Result<Seq<Uuid>, ErrorShape>,
)
    requires
        concluded(ProjectLookupView::Default, outcome) is Ok,
    ensures
        planned(
            remembered(known_default, ProjectLookupView::Default, outcome),
            ProjectRefView::Default,
        ) == ResolutionView::Resolved(concluded(ProjectLookupView::Default, outcome)->Ok_0),
{
}

/// A lookup by name that the backend answers with 404 fails with the
/// backend's own text behind `Not found: `, and so does one that matches
/// nothing, with the name of what was looked for.
pub proof fn lemma_no_match_is_not_found(lookup: ProjectLookupView, message: Seq<char>)
    ensures
        concluded(lookup, Err(ErrorShape::NotFound { message })) == Err::<Uuid, Seq<char>>(
            "Not found: "@ + message,
        ),
        concluded(lookup, Ok(Seq::empty())) == Err::<Uuid, Seq<char>>(
            "Not found: "@ + missing(lookup),
        ),
{
}

/// Every failed resolution has a message.
pub proof fn lemma_concluded_error_nonempty(
    lookup: ProjectLookupView,
    outcome: Result<Seq<Uuid>, ErrorShape>,
)
    ensures
        concluded(lookup, outcome) matches Err(message) ==> message.len() > 0,
{
    match outcome {
        Err(shape) => lemma_unified_message_nonempty(shape),
        Ok(found) => lemma_unified_message_nonempty(
            ErrorShape::NotFound { message: missing(lookup) },
        ),
    }
}

/// Resolves project references and remembers the default project once it
/// has been found.
#[derive(PartialEq, Eq, Debug)]
pub struct Resolver {
    pub default_project: Option<ProjectId>,
}

impl View for Resolver {
    type V = Option<Uuid>;

    open spec fn view(&self) -> Option<Uuid> {
        match self.default_project {
            Some(id) => Some(id.0),
            None => None,
        }
    }
}

impl Resolver {
    /// A resolver that knows no default project yet.
    pub fn new() -> (res: Resolver)
        ensures
            res@ is None,
    {
        Resolver { default_project: None }
    }

    /// What the reference takes to resolve.
    pub fn plan(&self, project_ref: &ProjectRef) -> (res: Resolution)
        ensures
            res@ == planned(self@, project_ref@),
    {
        match project_ref {
            ProjectRef::Id(id) => Resolution::Resolved(id.clone()),
            ProjectRef::Name(name) => Resolution::Lookup(ProjectLookup::ByName(name.clone())),
            ProjectRef::Default => match &self.default_project {
                Some(id) => Resolution::Resolved(id.clone()),
                None => Resolution::Lookup(ProjectLookup::Default),
            },
        }
    }

    /// Takes the answer to a lookup: the project it resolves to, or the
    /// failure. Remembers the default project where the lookup found it.
    pub fn conclude(
        &mut self,
        lookup: &ProjectLookup,
        outcome: Result<Vec<ProjectId>, ProjectError>,
    ) -> (res: Result<ProjectId, GolemError>)
        ensures
            resolves_as(res, concluded(lookup@, lookup_outcome(outcome))),
            res matches Err(e) ==> e@.len() > 0,
            final(self)@ == remembered(old(self)@, lookup@, lookup_outcome(outcome)),
    {
        proof {
            lemma_concluded_error_nonempty(lookup@, lookup_outcome(outcome));
        }
        match outcome {
            Err(e) => Err(GolemError::from(e)),
            Ok(found) => {
                if found.len() == 0 {
                    let message = match lookup {
                        ProjectLookup::ByName(name) => {
                            let mut text = String::from_str("project ");
                            text.append(name.as_str());
                            text
                        },
                        ProjectLookup::Default => String::from_str("default project"),
                    };
                    Err(GolemError::from(ProjectError::Status404 { message }))
                } else {
                    let id = found[0].clone();
                    match lookup {
                        ProjectLookup::Default => {
                            self.default_project = Some(id.clone());
                        },
                        ProjectLookup::ByName(_) => {},
                    }
                    Ok(id)
                }
            },
        }
    }

    /// Resolves a reference, with at most one call to the projects
    /// interface. Where `plan` asks for no lookup the project is the planned
    /// one. Where it asks for one, that lookup is put to the interface, and
    /// the interface's answer is taken as `conclude` takes it.
    pub fn resolve<P: ProjectClient>(&mut self, projects: &P, project_ref: &ProjectRef) -> (res:
        Result<ProjectId, GolemError>)
        ensures
            match planned(old(self)@, project_ref@) {
                ResolutionView::Resolved(id) => {
                    &&& res matches Ok(found) && found.0 == id
                    &&& final(self)@ == old(self)@
                },
                ResolutionView::Lookup(lookup) => exists|
                    outcome: Result<Vec<ProjectId>, ProjectError>,
                |
                    {
                        &&& #[trigger] answered(projects, lookup, outcome)
                        &&& resolves_as(res, concluded(lookup, lookup_outcome(outcome)))
                        &&& final(self)@ == remembered(
                            old(self)@,
                            lookup,
                            lookup_outcome(outcome),
                        )
                    },
            },
            res matches Err(e) ==> e@.len() > 0,
    {
        match self.plan(project_ref) {
            Resolution::Resolved(id) => Ok(id),
            Resolution::Lookup(lookup) => {
                let outcome = projects.find(&lookup);
                assert(call_ensures(P::find, (projects, &lookup), outcome));
                let ghost given = outcome;
                let res = self.conclude(&lookup, outcome);
                assert(answered(projects, lookup@, given));
                res
            },
        }
    }
}

} // verus!
