//! Platform roles.

use crate::text::{joined, quoted, str_eq, unknown_value, unknown_value_message};
use vstd::prelude::*;
use vstd::string::*;

verus! {

/// A permission that holds across the whole platform.
#[derive(Copy, Clone, PartialEq, Eq, Debug, Structural)]
pub enum Role {
    Admin,
    WhitelistAdmin,
    MarketingAdmin,
    ViewProject,
    DeleteProject,
    CreateProject,
    InstanceServer,
}

impl Role {
    /// The name by which a role is written and read: its declared name.
    pub open spec fn name(self) -> Seq<char> {
        match self {
            Role::Admin => "Admin"@,
            Role::WhitelistAdmin => "WhitelistAdmin"@,
            Role::MarketingAdmin => "MarketingAdmin"@,
            Role::ViewProject => "ViewProject"@,
            Role::DeleteProject => "DeleteProject"@,
            Role::CreateProject => "CreateProject"@,
            Role::InstanceServer => "InstanceServer"@,
        }
    }

    /// Every role, in declaration order.
    pub open spec fn all_values() -> Seq<Role> {
        seq![
            Role::Admin,
            Role::WhitelistAdmin,
            Role::MarketingAdmin,
            Role::ViewProject,
            Role::DeleteProject,
            Role::CreateProject,
            Role::InstanceServer,
        ]
    }

    /// The names of all roles, in declaration order.
    pub open spec fn all_names() -> Seq<Seq<char>> {
        Self::all_values().map_values(|r: Role| r.name())
    }

    /// The role that a text names, if it names one.
    pub open spec fn named(s: Seq<char>) -> Option<Role> {
        if exists|r: Role| r.name() == s {
            Some(choose|r: Role| r.name() == s)
        } else {
            None
        }
    }

    /// What is answered to a text that names no role.
    pub open spec fn unknown(s: Seq<char>) -> Seq<char> {
        unknown_value("role"@, s, Self::all_names())
    }

    proof fn reveal_names()
        ensures
            "Admin"@.len() == 5,
            "WhitelistAdmin"@.len() == 14,
            "MarketingAdmin"@.len() == 14,
            "ViewProject"@.len() == 11,
            "DeleteProject"@.len() == 13,
            "CreateProject"@.len() == 13,
            "InstanceServer"@.len() == 14,
            "Admin"@[0] == 'A',
            "Admin"@[4] == 'n',
            "WhitelistAdmin"@[0] == 'W',
            "WhitelistAdmin"@[4] == 'e',
            "MarketingAdmin"@[0] == 'M',
            "MarketingAdmin"@[4] == 'e',
            "ViewProject"@[0] == 'V',
            "ViewProject"@[4] == 'P',
            "DeleteProject"@[0] == 'D',
            "DeleteProject"@[4] == 't',
            "CreateProject"@[0] == 'C',
            "CreateProject"@[4] == 't',
            "InstanceServer"@[0] == 'I',
            "InstanceServer"@[4] == 'a',
    {
        reveal_strlit("Admin");
        reveal_strlit("WhitelistAdmin");
        reveal_strlit("MarketingAdmin");
        reveal_strlit("ViewProject");
        reveal_strlit("DeleteProject");
        reveal_strlit("CreateProject");
        reveal_strlit("InstanceServer");
    }

    /// No two roles share a name.
    pub proof fn lemma_names_distinct(a: Role, b: Role)
        ensures
            a.name() == b.name() ==> a == b,
    {
        Self::reveal_names();
    }

    /// Every role is listed.
    pub proof fn lemma_all_values_complete(r: Role)
        ensures
            Self::all_values().contains(r),
    {
        match r {
            Role::Admin => assert(Self::all_values()[0] == r),
            Role::WhitelistAdmin => assert(Self::all_values()[1] == r),
            Role::MarketingAdmin => assert(Self::all_values()[2] == r),
            Role::ViewProject => assert(Self::all_values()[3] == r),
            Role::DeleteProject => assert(Self::all_values()[4] == r),
            Role::CreateProject => assert(Self::all_values()[5] == r),
            Role::InstanceServer => assert(Self::all_values()[6] == r),
        }
    }

    /// A role's own name is read back as that role.
    pub proof fn lemma_name_round_trip(r: Role)
        ensures
            Self::named(r.name()) == Some(r),
    {
        let other = choose|other: Role| other.name() == r.name();
        Self::lemma_names_distinct(other, r);
    }

    /// A text is read as a role exactly when it is that role's name.
    pub proof fn lemma_named_iff_name(s: Seq<char>, r: Role)
        ensures
            Self::named(s) == Some(r) <==> s == r.name(),
    {
        if s == r.name() {
            Self::lemma_name_round_trip(r);
        }
    }

    /// The answer to a text that names no role, written out: every name is
    /// listed, in declaration order.
    pub proof fn lemma_unknown_written_out(s: Seq<char>)
        ensures
            Self::unknown(s) == "Unknown role: "@ + s
                + ". Expected one of \"Admin\", \"WhitelistAdmin\", \"MarketingAdmin\", \"ViewProject\", \"DeleteProject\", \"CreateProject\", \"InstanceServer\""@,
    {
        reveal_strlit("Admin");
        reveal_strlit("WhitelistAdmin");
        reveal_strlit("MarketingAdmin");
        reveal_strlit("ViewProject");
        reveal_strlit("DeleteProject");
        reveal_strlit("CreateProject");
        reveal_strlit("InstanceServer");
        reveal_strlit("\"");
        reveal_strlit(", ");
        reveal_strlit("Unknown ");
        reveal_strlit("role");
        reveal_strlit(": ");
        reveal_strlit("Unknown role: ");
        reveal_strlit(". Expected one of ");
        reveal_strlit(
            ". Expected one of \"Admin\", \"WhitelistAdmin\", \"MarketingAdmin\", \"ViewProject\", \"DeleteProject\", \"CreateProject\", \"InstanceServer\"",
        );
        let q = Self::all_names().map_values(|name: Seq<char>| quoted(name));
        reveal_with_fuel(joined, 8);
        assert(q.drop_last() =~= q.take(6));
        assert(q.take(6).drop_last() =~= q.take(5));
        assert(q.take(5).drop_last() =~= q.take(4));
        assert(q.take(4).drop_last() =~= q.take(3));
        assert(q.take(3).drop_last() =~= q.take(2));
        assert(q.take(2).drop_last() =~= q.take(1));
        assert(joined(q, ", "@) == q[0] + ", "@ + q[1] + ", "@ + q[2] + ", "@ + q[3] + ", "@ + q[4] + ", "@ + q[5] + ", "@ + q[6]);
        assert(Self::unknown(s) =~= "Unknown role: "@ + s
            + ". Expected one of \"Admin\", \"WhitelistAdmin\", \"MarketingAdmin\", \"ViewProject\", \"DeleteProject\", \"CreateProject\", \"InstanceServer\""@);
    }

    /// The role's name as a constant.
    pub fn as_str(&self) -> (res: &'static str)
        ensures
            res@ == self.name(),
    {
        match self {
            Role::Admin => "Admin",
            Role::WhitelistAdmin => "WhitelistAdmin",
            Role::MarketingAdmin => "MarketingAdmin",
            Role::ViewProject => "ViewProject",
            Role::DeleteProject => "DeleteProject",
            Role::CreateProject => "CreateProject",
            Role::InstanceServer => "InstanceServer",
        }
    }

    /// The role's name.
    pub fn to_string(&self) -> (res: String)
        ensures
            res@ == self.name(),
    {
        String::from_str(self.as_str())
    }

    /// Every role, in declaration order.
    pub fn all() -> (res: Vec<Role>)
        ensures
            res@ == Self::all_values(),
    {
        let mut out: Vec<Role> = Vec::new();
        out.push(Role::Admin);
        out.push(Role::WhitelistAdmin);
        out.push(Role::MarketingAdmin);
        out.push(Role::ViewProject);
        out.push(Role::DeleteProject);
        out.push(Role::CreateProject);
        out.push(Role::InstanceServer);
        assert(out@ =~= Self::all_values());
        out
    }

    /// The names of all roles, in declaration order.
    pub fn names() -> (res: Vec<String>)
        ensures
            res.deep_view() == Self::all_names(),
    {
        let all = Self::all();
        let mut out: Vec<String> = Vec::new();
        let mut i: usize = 0;
        while i < all.len()
            invariant
                i <= all.len(),
                all@ == Self::all_values(),
                out.deep_view() == all@.take(i as int).map_values(|r: Role| r.name()),
            decreases all.len() - i,
        {
            let ghost before = out.deep_view();
            out.push(all[i].to_string());
            assert(out.deep_view() =~= before.push(all@[i as int].name()));
            assert(all@.take(i + 1) =~= all@.take(i as int).push(all@[i as int]));
            assert(out.deep_view() =~= all@.take(i + 1).map_values(|r: Role| r.name()));
            i += 1;
        }
        assert(all@.take(i as int) =~= all@);
        out
    }

    /// Reads a role from its name. The name must match exactly, letter case
    /// included; any other text is answered with the list of all names, and
    /// never with a default.
    pub fn from_str(s: &str) -> (res: Result<Role, String>)
        ensures
            match Self::named(s@) {
                Some(r) => res == Ok::<Role, String>(r),
                None => res is Err && res->Err_0@ == Self::unknown(s@),
            },
    {
        if str_eq(s, "Admin") {
            proof {
                Self::lemma_name_round_trip(Role::Admin);
            }
            Ok(Role::Admin)
        } else if str_eq(s, "WhitelistAdmin") {
            proof {
                Self::lemma_name_round_trip(Role::WhitelistAdmin);
            }
            Ok(Role::WhitelistAdmin)
        } else if str_eq(s, "MarketingAdmin") {
            proof {
                Self::lemma_name_round_trip(Role::MarketingAdmin);
            }
            Ok(Role::MarketingAdmin)
        } else if str_eq(s, "ViewProject") {
            proof {
                Self::lemma_name_round_trip(Role::ViewProject);
            }
            Ok(Role::ViewProject)
        } else if str_eq(s, "DeleteProject") {
            proof {
                Self::lemma_name_round_trip(Role::DeleteProject);
            }
            Ok(Role::DeleteProject)
        } else if str_eq(s, "CreateProject") {
            proof {
                Self::lemma_name_round_trip(Role::CreateProject);
            }
            Ok(Role::CreateProject)
        } else if str_eq(s, "InstanceServer") {
            proof {
                Self::lemma_name_round_trip(Role::InstanceServer);
            }
            Ok(Role::InstanceServer)
        } else {
            assert forall|r: Role| r.name() != s@ by {
                match r {
                    Role::Admin => {},
                    Role::WhitelistAdmin => {},
                    Role::MarketingAdmin => {},
                    Role::ViewProject => {},
                    Role::DeleteProject => {},
                    Role::CreateProject => {},
                    Role::InstanceServer => {},
                }
            }
            let names = Self::names();
            Err(unknown_value_message("role", s, &names))
        }
    }
}

impl std::str::FromStr for Role {
    type Err = String;

    fn from_str(s: &str) -> (res: Result<Role, String>)
        ensures
            match Role::named(s@) {
                Some(r) => res == Ok::<Role, String>(r),
                None => res is Err && res->Err_0@ == Role::unknown(s@),
            },
    {
        Role::from_str(s)
    }
}

} // verus!
