//! The output format selector.

use crate::text::{joined, quoted, str_eq, unknown_value, unknown_value_message};
use vstd::prelude::*;
use vstd::string::*;

verus! {

/// How a result is rendered.
#[derive(Copy, Clone, PartialEq, Eq, Debug, Structural)]
pub enum Format {
    Json,
    Yaml,
}

impl Format {
    /// The name by which a format is selected and shown.
    pub open spec fn name(self) -> Seq<char> {
        match self {
            Format::Json => "json"@,
            Format::Yaml => "yaml"@,
        }
    }

    /// Every format, in declaration order.
    pub open spec fn all_values() -> Seq<Format> {
        seq![Format::Json, Format::Yaml]
    }

    /// The names of all formats, in declaration order.
    pub open spec fn all_names() -> Seq<Seq<char>> {
        Self::all_values().map_values(|f: Format| f.name())
    }

    /// The format that a text names, if it names one.
    pub open spec fn named(s: Seq<char>) -> Option<Format> {
        if exists|f: Format| f.name() == s {
            Some(choose|f: Format| f.name() == s)
        } else {
            None
        }
    }

    /// What is answered to a text that names no format.
    pub open spec fn unknown(s: Seq<char>) -> Seq<char> {
        unknown_value("format"@, s, Self::all_names())
    }

    /// No two formats share a name.
    pub proof fn lemma_names_distinct(a: Format, b: Format)
        ensures
            a.name() == b.name() ==> a == b,
    {
        reveal_strlit("json");
        reveal_strlit("yaml");
        if a != b && a.name() == b.name() {
            assert("json"@[0] == 'j');
            assert("yaml"@[0] == 'y');
        }
    }

    /// Every format is listed.
    pub proof fn lemma_all_values_complete(f: Format)
        ensures
            Self::all_values().contains(f),
    {
        match f {
            Format::Json => assert(Self::all_values()[0] == f),
            Format::Yaml => assert(Self::all_values()[1] == f),
        }
    }

    /// A format's own name is read back as that format.
    pub proof fn lemma_name_round_trip(f: Format)
        ensures
            Self::named(f.name()) == Some(f),
    {
        let g = choose|g: Format| g.name() == f.name();
        Self::lemma_names_distinct(g, f);
    }

    /// A text is read as a format exactly when it is that format's name.
    pub proof fn lemma_named_iff_name(s: Seq<char>, f: Format)
        ensures
            Self::named(s) == Some(f) <==> s == f.name(),
    {
        if s == f.name() {
            Self::lemma_name_round_trip(f);
        }
    }

    /// The answer to a text that names no format, written out: every name is
    /// listed, in declaration order.
    pub proof fn lemma_unknown_written_out(s: Seq<char>)
        ensures
            Self::unknown(s) == "Unknown format: "@ + s
                + ". Expected one of \"json\", \"yaml\""@,
    {
        reveal_strlit("json");
        reveal_strlit("yaml");
        reveal_strlit("\"");
        reveal_strlit(", ");
        reveal_strlit("Unknown ");
        reveal_strlit("format");
        reveal_strlit(": ");
        reveal_strlit("Unknown format: ");
        reveal_strlit(". Expected one of ");
        reveal_strlit(
            ". Expected one of \"json\", \"yaml\"",
        );
        let q = Self::all_names().map_values(|name: Seq<char>| quoted(name));
        reveal_with_fuel(joined, 3);
        assert(q.drop_last() =~= q.take(1));
        assert(joined(q, ", "@) == q[0] + ", "@ + q[1]);
        assert(Self::unknown(s) =~= "Unknown format: "@ + s
            + ". Expected one of \"json\", \"yaml\""@);
    }

    /// The format's name as a constant.
    pub fn as_str(&self) -> (res: &'static str)
        ensures
            res@ == self.name(),
    {
        match self {
            Format::Json => "json",
            Format::Yaml => "yaml",
        }
    }

    /// The format's name.
    pub fn to_string(&self) -> (res: String)
        ensures
            res@ == self.name(),
    {
        String::from_str(self.as_str())
    }

    /// Every format, in declaration order.
    pub fn all() -> (res: Vec<Format>)
        ensures
            res@ == Self::all_values(),
    {
        let mut out: Vec<Format> = Vec::new();
        out.push(Format::Json);
        out.push(Format::Yaml);
        assert(out@ =~= Self::all_values());
        out
    }

    /// The names of all formats, in declaration order.
    pub fn names() -> (res: Vec<String>)
        ensures
            res.deep_view() == Self::all_names(),
    {
        let all = Self::all();
        let mut out: Vec<String> = Vec::new();
        let mut i: usize = 0;
        while i < all.len()
            invariant
                i <= all.len(),
                all@ == Self::all_values(),
                out.deep_view() == all@.take(i as int).map_values(|f: Format| f.name()),
            decreases all.len() - i,
        {
            let ghost before = out.deep_view();
            out.push(all[i].to_string());
            assert(out.deep_view() =~= before.push(all@[i as int].name()));
            assert(all@.take(i + 1) =~= all@.take(i as int).push(all@[i as int]));
            assert(out.deep_view() =~= all@.take(i + 1).map_values(|f: Format| f.name()));
            i += 1;
        }
        assert(all@.take(i as int) =~= all@);
        out
    }

    /// Reads a format from its name. The name must match exactly, letter case
    /// included; any other text is answered with the list of all names.
    pub fn from_str(s: &str) -> (res: Result<Format, String>)
        ensures
            match Self::named(s@) {
                Some(f) => res == Ok::<Format, String>(f),
                None => res is Err && res->Err_0@ == Self::unknown(s@),
            },
    {
        if str_eq(s, "json") {
            proof {
                Self::lemma_name_round_trip(Format::Json);
            }
            Ok(Format::Json)
        } else if str_eq(s, "yaml") {
            proof {
                Self::lemma_name_round_trip(Format::Yaml);
            }
            Ok(Format::Yaml)
        } else {
            assert forall|f: Format| f.name() != s@ by {
                match f {
                    Format::Json => {},
                    Format::Yaml => {},
                }
            }
            let names = Self::names();
            Err(unknown_value_message("format", s, &names))
        }
    }
}

impl std::str::FromStr for Format {
    type Err = String;

    fn from_str(s: &str) -> (res: Result<Format, String>)
        ensures
            match Format::named(s@) {
                Some(f) => res == Ok::<Format, String>(f),
                None => res is Err && res->Err_0@ == Format::unknown(s@),
            },
    {
        Format::from_str(s)
    }
}

} // verus!
