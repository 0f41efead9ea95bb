//! References to a component: by identifier, or by name within a project.

use crate::model::ids::{ComponentName, ProjectId, RawComponentId};
use crate::model::project_ref::{ProjectRef, ProjectRefView};
use uuid::Uuid;
use vstd::prelude::*;

verus! {

/// How a command points at a component. A name is looked up in a project,
/// so it comes with a reference to that project; an identifier needs none.
#[derive(PartialEq, Eq, Debug)]
pub enum ComponentIdOrName {
    Id(RawComponentId),
    Name(ComponentName, ProjectRef),
}

/// A component reference with its texts as sequences of characters.
pub enum ComponentIdOrNameView {
    Id(Uuid),
    Name(Seq<char>, ProjectRefView),
}

impl View for ComponentIdOrName {
    type V = ComponentIdOrNameView;

    open spec fn view(&self) -> ComponentIdOrNameView {
        match self {
            ComponentIdOrName::Id(id) => ComponentIdOrNameView::Id(id.0),
            ComponentIdOrName::Name(name, project) => ComponentIdOrNameView::Name(
                name@,
                project@,
            ),
        }
    }
}

impl Clone for ComponentIdOrName {
    fn clone(&self) -> (res: ComponentIdOrName)
        ensures
            res@ == self@,
    {
        match self {
            ComponentIdOrName::Id(id) => ComponentIdOrName::Id(RawComponentId(id.0)),
            ComponentIdOrName::Name(name, project) => ComponentIdOrName::Name(
                ComponentName(name.0.clone()),
                project.clone(),
            ),
        }
    }
}

/// The four command-line options that select a component. The argument
/// grammar sets exactly one of identifier and name, and lets the project
/// options stand only beside a name.
#[derive(Clone, Debug)]
pub struct ComponentIdOrNameArgs {
    pub component_id: Option<Uuid>,
    pub component_name: Option<String>,
    pub project_id: Option<Uuid>,
    pub project_name: Option<String>,
}

/// The options with their texts as sequences of characters.
pub struct ComponentIdOrNameArgsView {
    pub component_id: Option<Uuid>,
    pub component_name: Option<Seq<char>>,
    pub project_id: Option<Uuid>,
    pub project_name: Option<Seq<char>>,
}

impl View for ComponentIdOrNameArgs {
    type V = ComponentIdOrNameArgsView;

    open spec fn view(&self) -> ComponentIdOrNameArgsView {
        ComponentIdOrNameArgsView {
            component_id: self.component_id,
            component_name: match self.component_name {
                Some(name) => Some(name@),
                None => None,
            },
            project_id: self.project_id,
            project_name: match self.project_name {
                Some(name) => Some(name@),
                None => None,
            },
        }
    }
}

impl ComponentIdOrNameArgsView {
    /// The component is given, by identifier or by name.
    pub open spec fn selects_component(self) -> bool {
        self.component_id is Some || self.component_name is Some
    }

    /// What the argument grammar lets through: exactly one of identifier and
    /// name, at most one project option, and no project option beside an
    /// identifier.
    pub open spec fn exclusive(self) -> bool {
        &&& self.component_id is Some <==> self.component_name is None
        &&& !(self.project_id is Some && self.project_name is Some)
        &&& self.component_id is Some ==> self.project_id is None && self.project_name is None
    }

    /// The project that the options select. An identifier wins over a name.
    pub open spec fn project(self) -> ProjectRefView {
        match (self.project_id, self.project_name) {
            (Some(id), _) => ProjectRefView::Id(id),
            (None, Some(name)) => ProjectRefView::Name(name),
            (None, None) => ProjectRefView::Default,
        }
    }

    /// The reference that the options select, where they select a
    /// component. An identifier wins over a name.
    pub open spec fn to_ref(self) -> ComponentIdOrNameView
        recommends
            self.selects_component(),
    {
        match self.component_id {
            Some(id) => ComponentIdOrNameView::Id(id),
            None => ComponentIdOrNameView::Name(self.component_name->0, self.project()),
        }
    }
}

impl ComponentIdOrNameView {
    /// The options that select this reference.
    pub open spec fn to_args(self) -> ComponentIdOrNameArgsView {
        match self {
            ComponentIdOrNameView::Id(id) => ComponentIdOrNameArgsView {
                component_id: Some(id),
                component_name: None,
                project_id: None,
                project_name: None,
            },
            ComponentIdOrNameView::Name(name, project) => ComponentIdOrNameArgsView {
                component_id: None,
                component_name: Some(name),
                project_id: project.to_args().project_id,
                project_name: project.to_args().project_name,
            },
        }
    }
}

/// Writing a reference as options and reading the options back gives the
/// reference again.
pub proof fn lemma_component_ref_round_trip(r: ComponentIdOrNameView)
    ensures
        r.to_args().exclusive(),
        r.to_args().to_ref() == r,
{
}

/// Reading options that the argument grammar lets through and writing the
/// reference back gives the options again.
pub proof fn lemma_component_ref_args_round_trip(args: ComponentIdOrNameArgsView)
    requires
        args.exclusive(),
    ensures
        args.to_ref().to_args() == args,
{
}

impl ComponentIdOrName {
    /// The reference that the options select. They must select a component,
    /// which the argument grammar sees to.
    pub fn from_args(value: &ComponentIdOrNameArgs) -> (res: ComponentIdOrName)
        requires
            value@.selects_component(),
        ensures
            res@ == value@.to_ref(),
    {
        match value.component_id {
            Some(id) => ComponentIdOrName::Id(RawComponentId(id)),
            None => {
                let project = match value.project_id {
                    Some(id) => ProjectRef::Id(ProjectId(id)),
                    None => match &value.project_name {
                        Some(name) => ProjectRef::Name(name.clone()),
                        None => ProjectRef::Default,
                    },
                };
                match &value.component_name {
                    Some(name) => ComponentIdOrName::Name(ComponentName(name.clone()), project),
                    None => unreached(),
                }
            },
        }
    }

    /// The reference that the options select, or nothing where they select
    /// no component.
    pub fn try_from_args(value: &ComponentIdOrNameArgs) -> (res: Option<ComponentIdOrName>)
        ensures
            res is Some <==> value@.selects_component(),
            res matches Some(r) ==> r@ == value@.to_ref(),
    {
        if value.component_id.is_some() || value.component_name.is_some() {
            Some(Self::from_args(value))
        } else {
            None
        }
    }
}

/// A text built at run time is known by its characters, not as a value, so
/// the conversion is described by the view of its result, in `from`'s own
/// contract.
impl<'a> vstd::std_specs::convert::FromSpecImpl<&'a ComponentIdOrName> for ComponentIdOrNameArgs {
    open spec fn obeys_from_spec() -> bool {
        false
    }

    open spec fn from_spec(v: &'a ComponentIdOrName) -> ComponentIdOrNameArgs {
        choose|args: ComponentIdOrNameArgs| args@ == v@.to_args()
    }
}

impl<'a> From<&'a ComponentIdOrName> for ComponentIdOrNameArgs {
    /// The options that select the reference.
    fn from(value: &'a ComponentIdOrName) -> (res: ComponentIdOrNameArgs)
        ensures
            res@ == value@.to_args(),
            res@.exclusive(),
    {
        match value {
            ComponentIdOrName::Id(id) => ComponentIdOrNameArgs {
                component_id: Some(id.0),
                component_name: None,
                project_id: None,
                project_name: None,
            },
            ComponentIdOrName::Name(name, project) => {
                let (project_id, project_name) = match project {
                    ProjectRef::Id(id) => (Some(id.0), None),
                    ProjectRef::Name(name) => (None, Some(name.clone())),
                    ProjectRef::Default => (None, None),
                };
                ComponentIdOrNameArgs {
                    component_id: None,
                    component_name: Some(name.0.clone()),
                    project_id,
                    project_name,
                }
            },
        }
    }
}

} // verus!
