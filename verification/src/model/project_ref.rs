//! References to a project: by identifier, by name, or the caller's default.

use crate::model::ids::ProjectId;
use uuid::Uuid;
use vstd::prelude::*;

verus! {

/// How a command points at a project. Exactly one way is chosen.
#[derive(PartialEq, Eq, Debug)]
pub enum ProjectRef {
    Id(ProjectId),
    Name(String),
    Default,
}

/// A project reference with its name as a sequence of characters.
pub enum ProjectRefView {
    Id(Uuid),
    Name(Seq<char>),
    Default,
}

impl View for ProjectRef {
    type V = ProjectRefView;

    open spec fn view(&self) -> ProjectRefView {
        match self {
            ProjectRef::Id(id) => ProjectRefView::Id(id.0),
            ProjectRef::Name(name) => ProjectRefView::Name(name@),
            ProjectRef::Default => ProjectRefView::Default,
        }
    }
}

impl Clone for ProjectRef {
    fn clone(&self) -> (res: ProjectRef)
        ensures
            res@ == self@,
    {
        match self {
            ProjectRef::Id(id) => ProjectRef::Id(ProjectId(id.0)),
            ProjectRef::Name(name) => ProjectRef::Name(name.clone()),
            ProjectRef::Default => ProjectRef::Default,
        }
    }
}

/// The two command-line options that select a project. Both absent selects
/// the default project; the argument grammar never sets both.
#[derive(Clone, Debug)]
pub struct ProjectRefArgs {
    pub project_id: Option<Uuid>,
    pub project_name: Option<String>,
}

/// The options with the name as a sequence of characters.
pub struct ProjectRefArgsView {
    pub project_id: Option<Uuid>,
    pub project_name: Option<Seq<char>>,
}

impl View for ProjectRefArgs {
    type V = ProjectRefArgsView;

    open spec fn view(&self) -> ProjectRefArgsView {
        ProjectRefArgsView {
            project_id: self.project_id,
            project_name: match self.project_name {
                Some(name) => Some(name@),
                None => None,
            },
        }
    }
}

impl ProjectRefArgsView {
    /// At most one of the two options is set.
    pub open spec fn exclusive(self) -> bool {
        !(self.project_id is Some && self.project_name is Some)
    }

    /// The reference that the options select. An identifier wins over a name.
    pub open spec fn to_ref(self) -> ProjectRefView {
        match (self.project_id, self.project_name) {
            (Some(id), _) => ProjectRefView::Id(id),
            (None, Some(name)) => ProjectRefView::Name(name),
            (None, None) => ProjectRefView::Default,
        }
    }
}

impl ProjectRefView {
    /// The options that select this reference.
    pub open spec fn to_args(self) -> ProjectRefArgsView {
        match self {
            ProjectRefView::Id(id) => ProjectRefArgsView {
                project_id: Some(id),
                project_name: None,
            },
            ProjectRefView::Name(name) => ProjectRefArgsView {
                project_id: None,
                project_name: Some(name),
            },
            ProjectRefView::Default => ProjectRefArgsView { project_id: None, project_name: None },
        }
    }
}

/// Writing a reference as options and reading the options back gives the
/// reference again.
pub proof fn lemma_project_ref_round_trip(r: ProjectRefView)
    ensures
        r.to_args().exclusive(),
        r.to_args().to_ref() == r,
{
}

/// Reading options that set at most one of the two and writing the reference
/// back gives the options again.
pub proof fn lemma_project_ref_args_round_trip(args: ProjectRefArgsView)
    requires
        args.exclusive(),
    ensures
        args.to_ref().to_args() == args,
{
}

/// A text built at run time is known by its characters, not as a value, so
/// the conversion is described by the view of its result, in `from`'s own
/// contract.
impl<'a> vstd::std_specs::convert::FromSpecImpl<&'a ProjectRefArgs> for ProjectRef {
    open spec fn obeys_from_spec() -> bool {
        false
    }

    open spec fn from_spec(v: &'a ProjectRefArgs) -> ProjectRef {
        choose|r: ProjectRef| r@ == v@.to_ref()
    }
}

impl<'a> From<&'a ProjectRefArgs> for ProjectRef {
    /// The reference that the options select.
    fn from(value: &'a ProjectRefArgs) -> (res: ProjectRef)
        ensures
            res@ == value@.to_ref(),
    {
        match value.project_id {
            Some(id) => ProjectRef::Id(ProjectId(id)),
            None => match &value.project_name {
                Some(name) => ProjectRef::Name(name.clone()),
                None => ProjectRef::Default,
            },
        }
    }
}

/// A text built at run time is known by its characters, not as a value, so
/// the conversion is described by the view of its result, in `from`'s own
/// contract.
impl<'a> vstd::std_specs::convert::FromSpecImpl<&'a ProjectRef> for ProjectRefArgs {
    open spec fn obeys_from_spec() -> bool {
        false
    }

    open spec fn from_spec(v: &'a ProjectRef) -> ProjectRefArgs {
        choose|args: ProjectRefArgs| args@ == v@.to_args()
    }
}

impl<'a> From<&'a ProjectRef> for ProjectRefArgs {
    /// The options that select the reference.
    fn from(value: &'a ProjectRef) -> (res: ProjectRefArgs)
        ensures
            res@ == value@.to_args(),
            res@.exclusive(),
    {
        match value {
            ProjectRef::Id(id) => ProjectRefArgs { project_id: Some(id.0), project_name: None },
            ProjectRef::Name(name) => ProjectRefArgs {
                project_id: None,
                project_name: Some(name.clone()),
            },
            ProjectRef::Default => ProjectRefArgs { project_id: None, project_name: None },
        }
    }
}

} // verus!
