//! Actions that a project grant can allow.

use crate::text::{joined, quoted, str_eq, unknown_value, unknown_value_message};
use vstd::prelude::*;
use vstd::string::*;

verus! {

/// A permission that holds within one project.
#[derive(Copy, Clone, PartialEq, Eq, Debug, Structural)]
pub enum ProjectAction {
    ViewComponent,
    CreateComponent,
    UpdateComponent,
    DeleteComponent,
    ViewInstance,
    CreateInstance,
    UpdateInstance,
    DeleteInstance,
    ViewProjectGrants,
    CreateProjectGrants,
    DeleteProjectGrants,
}

impl ProjectAction {
    /// The name by which an action is written and read: its declared name.
    pub open spec fn name(self) -> Seq<char> {
        match self {
            ProjectAction::ViewComponent => "ViewComponent"@,
            ProjectAction::CreateComponent => "CreateComponent"@,
            ProjectAction::UpdateComponent => "UpdateComponent"@,
            ProjectAction::DeleteComponent => "DeleteComponent"@,
            ProjectAction::ViewInstance => "ViewInstance"@,
            ProjectAction::CreateInstance => "CreateInstance"@,
            ProjectAction::UpdateInstance => "UpdateInstance"@,
            ProjectAction::DeleteInstance => "DeleteInstance"@,
            ProjectAction::ViewProjectGrants => "ViewProjectGrants"@,
            ProjectAction::CreateProjectGrants => "CreateProjectGrants"@,
            ProjectAction::DeleteProjectGrants => "DeleteProjectGrants"@,
        }
    }

    /// Every action, in declaration order.
    pub open spec fn all_values() -> Seq<ProjectAction> {
        seq![
            ProjectAction::ViewComponent,
            ProjectAction::CreateComponent,
            ProjectAction::UpdateComponent,
            ProjectAction::DeleteComponent,
            ProjectAction::ViewInstance,
            ProjectAction::CreateInstance,
            ProjectAction::UpdateInstance,
            ProjectAction::DeleteInstance,
            ProjectAction::ViewProjectGrants,
            ProjectAction::CreateProjectGrants,
            ProjectAction::DeleteProjectGrants,
        ]
    }

    /// The names of all actions, in declaration order.
    pub open spec fn all_names() -> Seq<Seq<char>> {
        Self::all_values().map_values(|a: ProjectAction| a.name())
    }

    /// The action that a text names, if it names one.
    pub open spec fn named(s: Seq<char>) -> Option<ProjectAction> {
        if exists|a: ProjectAction| a.name() == s {
            Some(choose|a: ProjectAction| a.name() == s)
        } else {
            None
        }
    }

    /// What is answered to a text that names no action.
    pub open spec fn unknown(s: Seq<char>) -> Seq<char> {
        unknown_value("action"@, s, Self::all_names())
    }

    proof fn reveal_names()
        ensures
            "ViewComponent"@.len() == 13,
            "CreateComponent"@.len() == 15,
            "UpdateComponent"@.len() == 15,
            "DeleteComponent"@.len() == 15,
            "ViewInstance"@.len() == 12,
            "CreateInstance"@.len() == 14,
            "UpdateInstance"@.len() == 14,
            "DeleteInstance"@.len() == 14,
            "ViewProjectGrants"@.len() == 17,
            "CreateProjectGrants"@.len() == 19,
            "DeleteProjectGrants"@.len() == 19,
            "ViewComponent"@[0] == 'V',
            "ViewComponent"@[4] == 'C',
            "CreateComponent"@[0] == 'C',
            "CreateComponent"@[4] == 't',
            "UpdateComponent"@[0] == 'U',
            "UpdateComponent"@[4] == 't',
            "DeleteComponent"@[0] == 'D',
            "DeleteComponent"@[4] == 't',
            "ViewInstance"@[0] == 'V',
            "ViewInstance"@[4] == 'I',
            "CreateInstance"@[0] == 'C',
            "CreateInstance"@[4] == 't',
            "UpdateInstance"@[0] == 'U',
            "UpdateInstance"@[4] == 't',
            "DeleteInstance"@[0] == 'D',
            "DeleteInstance"@[4] == 't',
            "ViewProjectGrants"@[0] == 'V',
            "ViewProjectGrants"@[4] == 'P',
            "CreateProjectGrants"@[0] == 'C',
            "CreateProjectGrants"@[4] == 't',
            "DeleteProjectGrants"@[0] == 'D',
            "DeleteProjectGrants"@[4] == 't',
    {
        reveal_strlit("ViewComponent");
        reveal_strlit("CreateComponent");
        reveal_strlit("UpdateComponent");
        reveal_strlit("DeleteComponent");
        reveal_strlit("ViewInstance");
        reveal_strlit("CreateInstance");
        reveal_strlit("UpdateInstance");
        reveal_strlit("DeleteInstance");
        reveal_strlit("ViewProjectGrants");
        reveal_strlit("CreateProjectGrants");
        reveal_strlit("DeleteProjectGrants");
    }

    /// No two actions share a name.
    pub proof fn lemma_names_distinct(a: ProjectAction, b: ProjectAction)
        ensures
            a.name() == b.name() ==> a == b,
    {
        Self::reveal_names();
    }

    /// Every action is listed.
    pub proof fn lemma_all_values_complete(a: ProjectAction)
        ensures
            Self::all_values().contains(a),
    {
        match a {
            ProjectAction::ViewComponent => assert(Self::all_values()[0] == a),
            ProjectAction::CreateComponent => assert(Self::all_values()[1] == a),
            ProjectAction::UpdateComponent => assert(Self::all_values()[2] == a),
            ProjectAction::DeleteComponent => assert(Self::all_values()[3] == a),
            ProjectAction::ViewInstance => assert(Self::all_values()[4] == a),
            ProjectAction::CreateInstance => assert(Self::all_values()[5] == a),
            ProjectAction::UpdateInstance => assert(Self::all_values()[6] == a),
            ProjectAction::DeleteInstance => assert(Self::all_values()[7] == a),
            ProjectAction::ViewProjectGrants => assert(Self::all_values()[8] == a),
            ProjectAction::CreateProjectGrants => assert(Self::all_values()[9] == a),
            ProjectAction::DeleteProjectGrants => assert(Self::all_values()[10] == a),
        }
    }

    /// A action's own name is read back as that action.
    pub proof fn lemma_name_round_trip(a: ProjectAction)
        ensures
            Self::named(a.name()) == Some(a),
    {
        let other = choose|other: ProjectAction| other.name() == a.name();
        Self::lemma_names_distinct(other, a);
    }

    /// A text is read as a action exactly when it is that action's name.
    pub proof fn lemma_named_iff_name(s: Seq<char>, a: ProjectAction)
        ensures
            Self::named(s) == Some(a) <==> s == a.name(),
    {
        if s == a.name() {
            Self::lemma_name_round_trip(a);
        }
    }

    /// The answer to a text that names no action, written out: every name is
    /// listed, in declaration order.
    pub proof fn lemma_unknown_written_out(s: Seq<char>)
        ensures
            Self::unknown(s) == "Unknown action: "@ + s
                + ". Expected one of \"ViewComponent\", \"CreateComponent\", \"UpdateComponent\", \"DeleteComponent\", \"ViewInstance\", \"CreateInstance\", \"UpdateInstance\", \"DeleteInstance\", \"ViewProjectGrants\", \"CreateProjectGrants\", \"DeleteProjectGrants\""@,
    {
        reveal_strlit("ViewComponent");
        reveal_strlit("CreateComponent");
        reveal_strlit("UpdateComponent");
        reveal_strlit("DeleteComponent");
        reveal_strlit("ViewInstance");
        reveal_strlit("CreateInstance");
        reveal_strlit("UpdateInstance");
        reveal_strlit("DeleteInstance");
        reveal_strlit("ViewProjectGrants");
        reveal_strlit("CreateProjectGrants");
        reveal_strlit("DeleteProjectGrants");
        reveal_strlit("\"");
        reveal_strlit(", ");
        reveal_strlit("Unknown ");
        reveal_strlit("action");
        reveal_strlit(": ");
        reveal_strlit("Unknown action: ");
        reveal_strlit(". Expected one of ");
        reveal_strlit(
            ". Expected one of \"ViewComponent\", \"CreateComponent\", \"UpdateComponent\", \"DeleteComponent\", \"ViewInstance\", \"CreateInstance\", \"UpdateInstance\", \"DeleteInstance\", \"ViewProjectGrants\", \"CreateProjectGrants\", \"DeleteProjectGrants\"",
        );
        let q = Self::all_names().map_values(|name: Seq<char>| quoted(name));
        reveal_with_fuel(joined, 12);
        assert(q.drop_last() =~= q.take(10));
        assert(q.take(10).drop_last() =~= q.take(9));
        assert(q.take(9).drop_last() =~= q.take(8));
        assert(q.take(8).drop_last() =~= q.take(7));
        assert(q.take(7).drop_last() =~= q.take(6));
        assert(q.take(6).drop_last() =~= q.take(5));
        assert(q.take(5).drop_last() =~= q.take(4));
        assert(q.take(4).drop_last() =~= q.take(3));
        assert(q.take(3).drop_last() =~= q.take(2));
        assert(q.take(2).drop_last() =~= q.take(1));
        assert(joined(q, ", "@) == q[0] + ", "@ + q[1] + ", "@ + q[2] + ", "@ + q[3] + ", "@ + q[4] + ", "@ + q[5] + ", "@ + q[6] + ", "@ + q[7] + ", "@ + q[8] + ", "@ + q[9] + ", "@ + q[10]);
        assert(Self::unknown(s) =~= "Unknown action: "@ + s
            + ". Expected one of \"ViewComponent\", \"CreateComponent\", \"UpdateComponent\", \"DeleteComponent\", \"ViewInstance\", \"CreateInstance\", \"UpdateInstance\", \"DeleteInstance\", \"ViewProjectGrants\", \"CreateProjectGrants\", \"DeleteProjectGrants\""@);
    }

    /// The action's name as a constant.
    pub fn as_str(&self) -> (res: &'static str)
        ensures
            res@ == self.name(),
    {
        match self {
            ProjectAction::ViewComponent => "ViewComponent",
            ProjectAction::CreateComponent => "CreateComponent",
            ProjectAction::UpdateComponent => "UpdateComponent",
            ProjectAction::DeleteComponent => "DeleteComponent",
            ProjectAction::ViewInstance => "ViewInstance",
            ProjectAction::CreateInstance => "CreateInstance",
            ProjectAction::UpdateInstance => "UpdateInstance",
            ProjectAction::DeleteInstance => "DeleteInstance",
            ProjectAction::ViewProjectGrants => "ViewProjectGrants",
            ProjectAction::CreateProjectGrants => "CreateProjectGrants",
            ProjectAction::DeleteProjectGrants => "DeleteProjectGrants",
        }
    }

    /// The action's name.
    pub fn to_string(&self) -> (res: String)
        ensures
            res@ == self.name(),
    {
        String::from_str(self.as_str())
    }

    /// Every action, in declaration order.
    pub fn all() -> (res: Vec<ProjectAction>)
        ensures
            res@ == Self::all_values(),
    {
        let mut out: Vec<ProjectAction> = Vec::new();
        out.push(ProjectAction::ViewComponent);
        out.push(ProjectAction::CreateComponent);
        out.push(ProjectAction::UpdateComponent);
        out.push(ProjectAction::DeleteComponent);
        out.push(ProjectAction::ViewInstance);
        out.push(ProjectAction::CreateInstance);
        out.push(ProjectAction::UpdateInstance);
        out.push(ProjectAction::DeleteInstance);
        out.push(ProjectAction::ViewProjectGrants);
        out.push(ProjectAction::CreateProjectGrants);
        out.push(ProjectAction::DeleteProjectGrants);
        assert(out@ =~= Self::all_values());
        out
    }

    /// The names of all actions, in declaration order.
    pub fn names() -> (res: Vec<String>)
        ensures
            res.deep_view() == Self::all_names(),
    {
        let all = Self::all();
        let mut out: Vec<String> = Vec::new();
        let mut i: usize = 0;
        while i < all.len()
            invariant
                i <= all.len(),
                all@ == Self::all_values(),
                out.deep_view() == all@.take(i as int).map_values(|a: ProjectAction| a.name()),
            decreases all.len() - i,
        {
            let ghost before = out.deep_view();
            out.push(all[i].to_string());
            assert(out.deep_view() =~= before.push(all@[i as int].name()));
            assert(all@.take(i + 1) =~= all@.take(i as int).push(all@[i as int]));
            assert(out.deep_view() =~= all@.take(i + 1).map_values(|a: ProjectAction| a.name()));
            i += 1;
        }
        assert(all@.take(i as int) =~= all@);
        out
    }

    /// Reads an action from its name. The name must match exactly, letter case
    /// included; any other text is answered with the list of all names, and
    /// never with a default.
    pub fn from_str(s: &str) -> (res: Result<ProjectAction, String>)
        ensures
            match Self::named(s@) {
                Some(a) => res == Ok::<ProjectAction, String>(a),
                None => res is Err && res->Err_0@ == Self::unknown(s@),
            },
    {
        if str_eq(s, "ViewComponent") {
            proof {
                Self::lemma_name_round_trip(ProjectAction::ViewComponent);
            }
            Ok(ProjectAction::ViewComponent)
        } else if str_eq(s, "CreateComponent") {
            proof {
                Self::lemma_name_round_trip(ProjectAction::CreateComponent);
            }
            Ok(ProjectAction::CreateComponent)
        } else if str_eq(s, "UpdateComponent") {
            proof {
                Self::lemma_name_round_trip(ProjectAction::UpdateComponent);
            }
            Ok(ProjectAction::UpdateComponent)
        } else if str_eq(s, "DeleteComponent") {
            proof {
                Self::lemma_name_round_trip(ProjectAction::DeleteComponent);
            }
            Ok(ProjectAction::DeleteComponent)
        } else if str_eq(s, "ViewInstance") {
            proof {
                Self::lemma_name_round_trip(ProjectAction::ViewInstance);
            }
            Ok(ProjectAction::ViewInstance)
        } else if str_eq(s, "CreateInstance") {
            proof {
                Self::lemma_name_round_trip(ProjectAction::CreateInstance);
            }
            Ok(ProjectAction::CreateInstance)
        } else if str_eq(s, "UpdateInstance") {
            proof {
                Self::lemma_name_round_trip(ProjectAction::UpdateInstance);
            }
            Ok(ProjectAction::UpdateInstance)
        } else if str_eq(s, "DeleteInstance") {
            proof {
                Self::lemma_name_round_trip(ProjectAction::DeleteInstance);
            }
            Ok(ProjectAction::DeleteInstance)
        } else if str_eq(s, "ViewProjectGrants") {
            proof {
                Self::lemma_name_round_trip(ProjectAction::ViewProjectGrants);
            }
            Ok(ProjectAction::ViewProjectGrants)
        } else if str_eq(s, "CreateProjectGrants") {
            proof {
                Self::lemma_name_round_trip(ProjectAction::CreateProjectGrants);
            }
            Ok(ProjectAction::CreateProjectGrants)
        } else if str_eq(s, "DeleteProjectGrants") {
            proof {
                Self::lemma_name_round_trip(ProjectAction::DeleteProjectGrants);
            }
            Ok(ProjectAction::DeleteProjectGrants)
        } else {
            assert forall|a: ProjectAction| a.name() != s@ by {
                match a {
                    ProjectAction::ViewComponent => {},
                    ProjectAction::CreateComponent => {},
                    ProjectAction::UpdateComponent => {},
                    ProjectAction::DeleteComponent => {},
                    ProjectAction::ViewInstance => {},
                    ProjectAction::CreateInstance => {},
                    ProjectAction::UpdateInstance => {},
                    ProjectAction::DeleteInstance => {},
                    ProjectAction::ViewProjectGrants => {},
                    ProjectAction::CreateProjectGrants => {},
                    ProjectAction::DeleteProjectGrants => {},
                }
            }
            let names = Self::names();
            Err(unknown_value_message("action", s, &names))
        }
    }
}

impl std::str::FromStr for ProjectAction {
    type Err = String;

    fn from_str(s: &str) -> (res: Result<ProjectAction, String>)
        ensures
            match ProjectAction::named(s@) {
                Some(a) => res == Ok::<ProjectAction, String>(a),
                None => res is Err && res->Err_0@ == ProjectAction::unknown(s@),
            },
    {
        ProjectAction::from_str(s)
    }
}

} // verus!
