//! The languages a project can be written in, with their standards.
use crate::error::{not_named, refuse_name, Error};
use crate::text::same_text;
use vstd::prelude::*;

verus! {

/// A standard of C.
#[derive(Debug, Clone, Copy, PartialEq, Eq, Structural)]
pub enum CStandard {
    C89,
    C99,
    C11,
}

impl CStandard {
    /// The names of the standards, in the order in which they are offered.
    pub open spec fn names() -> Seq<Seq<char>> {
        seq!["C89"@, "C99"@, "C11"@]
    }

    /// The name under which a standard is offered and stored.
    pub open spec fn name(self) -> Seq<char> {
        match self {
            CStandard::C89 => "C89"@,
            CStandard::C99 => "C99"@,
            CStandard::C11 => "C11"@,
        }
    }

    /// The standard's number, as the build system wants it.
    pub open spec fn number(self) -> Seq<char> {
        match self {
            CStandard::C89 => "89"@,
            CStandard::C99 => "99"@,
            CStandard::C11 => "11"@,
        }
    }

    /// The standard called `s`, if there is one.
    pub open spec fn parsed(s: Seq<char>) -> Option<CStandard> {
        if s == "C89"@ {
            Some(CStandard::C89)
        } else if s == "C99"@ {
            Some(CStandard::C99)
        } else if s == "C11"@ {
            Some(CStandard::C11)
        } else {
            None
        }
    }

    /// The names of the standards, in the order in which they are offered.
    pub fn variants() -> (r: Vec<&'static str>)
        ensures
            r.deep_view() == Self::names(),
    {
        let r = vec!["C89", "C99", "C11"];
        r
    }

    /// The standard's number.
    pub fn version(&self) -> (r: &'static str)
        ensures
            r@ == self.number(),
    {
        match self {
            CStandard::C89 => "89",
            CStandard::C99 => "99",
            CStandard::C11 => "11",
        }
    }

    /// The name of the standard.
    pub fn as_str(&self) -> (r: &'static str)
        ensures
            r@ == self.name(),
    {
        match self {
            CStandard::C89 => "C89",
            CStandard::C99 => "C99",
            CStandard::C11 => "C11",
        }
    }

    /// The standard called `s`, or `None` where `s` names no standard.
    pub fn parse(s: &str) -> (r: Option<CStandard>)
        ensures
            r == Self::parsed(s@),
    {
        if same_text(s, "C89") {
            Some(CStandard::C89)
        } else if same_text(s, "C99") {
            Some(CStandard::C99)
        } else if same_text(s, "C11") {
            Some(CStandard::C11)
        } else {
            None
        }
    }

    /// The standard called `s`; a parse error where `s` names none.
    pub fn from_str(s: &str) -> (r: Result<CStandard, Error>)
        ensures
            match Self::parsed(s@) {
                Some(standard) => r matches Ok(x) && x == standard,
                None => r matches Err(e) && e@ == not_named(),
            },
    {
        match Self::parse(s) {
            Some(standard) => Ok(standard),
            None => Err(refuse_name()),
        }
    }

    /// Every standard is found again under its name, and its name
    /// is among those offered.
    pub proof fn lemma_name_round_trip(self)
        ensures
            Self::parsed(self.name()) == Some(self),
            Self::names().contains(self.name()),
    {
        reveal_strlit("C89");
        reveal_strlit("C99");
        reveal_strlit("C11");
        assert("C89"@[1] != "C99"@[1]);
    }
}

/// A standard of C++.
#[derive(Debug, Clone, Copy, PartialEq, Eq, Structural)]
pub enum CppStandard {
    Cpp11,
    Cpp14,
    Cpp17,
    Cpp20,
    Cpp23,
}

impl CppStandard {
    /// The names of the standards, in the order in which they are offered.
    pub open spec fn names() -> Seq<Seq<char>> {
        seq!["Cpp11"@, "Cpp14"@, "Cpp17"@, "Cpp20"@, "Cpp23"@]
    }

    /// The name under which a standard is offered and stored.
    pub open spec fn name(self) -> Seq<char> {
        match self {
            CppStandard::Cpp11 => "Cpp11"@,
            CppStandard::Cpp14 => "Cpp14"@,
            CppStandard::Cpp17 => "Cpp17"@,
            CppStandard::Cpp20 => "Cpp20"@,
            CppStandard::Cpp23 => "Cpp23"@,
        }
    }

    /// The standard's number, as the build system wants it.
    pub open spec fn number(self) -> Seq<char> {
        match self {
            CppStandard::Cpp11 => "11"@,
            CppStandard::Cpp14 => "14"@,
            CppStandard::Cpp17 => "17"@,
            CppStandard::Cpp20 => "20"@,
            CppStandard::Cpp23 => "23"@,
        }
    }

    /// The standard called `s`, if there is one.
    pub open spec fn parsed(s: Seq<char>) -> Option<CppStandard> {
        if s == "Cpp11"@ {
            Some(CppStandard::Cpp11)
        } else if s == "Cpp14"@ {
            Some(CppStandard::Cpp14)
        } else if s == "Cpp17"@ {
            Some(CppStandard::Cpp17)
        } else if s == "Cpp20"@ {
            Some(CppStandard::Cpp20)
        } else if s == "Cpp23"@ {
            Some(CppStandard::Cpp23)
        } else {
            None
        }
    }

    /// The names of the standards, in the order in which they are offered.
    pub fn variants() -> (r: Vec<&'static str>)
        ensures
            r.deep_view() == Self::names(),
    {
        let r = vec!["Cpp11", "Cpp14", "Cpp17", "Cpp20", "Cpp23"];
        r
    }

    /// The standard's number.
    pub fn version(&self) -> (r: &'static str)
        ensures
            r@ == self.number(),
    {
        match self {
            CppStandard::Cpp11 => "11",
            CppStandard::Cpp14 => "14",
            CppStandard::Cpp17 => "17",
            CppStandard::Cpp20 => "20",
            CppStandard::Cpp23 => "23",
        }
    }

    /// The name of the standard.
    pub fn as_str(&self) -> (r: &'static str)
        ensures
            r@ == self.name(),
    {
        match self {
            CppStandard::Cpp11 => "Cpp11",
            CppStandard::Cpp14 => "Cpp14",
            CppStandard::Cpp17 => "Cpp17",
            CppStandard::Cpp20 => "Cpp20",
            CppStandard::Cpp23 => "Cpp23",
        }
    }

    /// The standard called `s`, or `None` where `s` names no standard.
    pub fn parse(s: &str) -> (r: Option<CppStandard>)
        ensures
            r == Self::parsed(s@),
    {
        if same_text(s, "Cpp11") {
            Some(CppStandard::Cpp11)
        } else if same_text(s, "Cpp14") {
            Some(CppStandard::Cpp14)
        } else if same_text(s, "Cpp17") {
            Some(CppStandard::Cpp17)
        } else if same_text(s, "Cpp20") {
            Some(CppStandard::Cpp20)
        } else if same_text(s, "Cpp23") {
            Some(CppStandard::Cpp23)
        } else {
            None
        }
    }

    /// The standard called `s`; a parse error where `s` names none.
    pub fn from_str(s: &str) -> (r: Result<CppStandard, Error>)
        ensures
            match Self::parsed(s@) {
                Some(standard) => r matches Ok(x) && x == standard,
                None => r matches Err(e) && e@ == not_named(),
            },
    {
        match Self::parse(s) {
            Some(standard) => Ok(standard),
            None => Err(refuse_name()),
        }
    }

    /// Every standard is found again under its name, and its name
    /// is among those offered.
    pub proof fn lemma_name_round_trip(self)
        ensures
            Self::parsed(self.name()) == Some(self),
            Self::names().contains(self.name()),
    {
        reveal_strlit("Cpp11");
        reveal_strlit("Cpp14");
        reveal_strlit("Cpp17");
        reveal_strlit("Cpp20");
        reveal_strlit("Cpp23");
        assert("Cpp11"@[4] != "Cpp14"@[4]);
        assert("Cpp20"@[4] != "Cpp23"@[4]);
    }
}

/// The language of a project: C or C++, each with its standard.
#[derive(Debug, Clone, Copy, PartialEq, Eq, Structural)]
pub enum Language {
    C(CStandard),
    Cpp(CppStandard),
}

impl Language {
    /// The names of all choices: those of C, then those of C++.
    pub open spec fn names() -> Seq<Seq<char>> {
        CStandard::names() + CppStandard::names()
    }

    /// The name under which a choice is offered.
    pub open spec fn name(self) -> Seq<char> {
        match self {
            Language::C(standard) => standard.name(),
            Language::Cpp(standard) => standard.name(),
        }
    }

    /// The choice called `s`, if there is one: C++ for the name of a C++
    /// standard, C for the name of a standard of C.
    pub open spec fn parsed(s: Seq<char>) -> Option<Language> {
        match CppStandard::parsed(s) {
            Some(standard) => Some(Language::Cpp(standard)),
            None => match CStandard::parsed(s) {
                Some(standard) => Some(Language::C(standard)),
                None => None,
            },
        }
    }

    /// The standard's number, as the build system wants it.
    pub open spec fn number(self) -> Seq<char> {
        match self {
            Language::C(standard) => standard.number(),
            Language::Cpp(standard) => standard.number(),
        }
    }

    /// The ending of the names of source files.
    pub open spec fn source_ending(self) -> Seq<char> {
        match self {
            Language::C(_) => "c"@,
            Language::Cpp(_) => "cpp"@,
        }
    }

    /// The ending of the names of header files.
    pub open spec fn header_ending(self) -> Seq<char> {
        match self {
            Language::C(_) => "h"@,
            Language::Cpp(_) => "hpp"@,
        }
    }

    /// The word by which CMake knows the language.
    pub open spec fn cmake_word(self) -> Seq<char> {
        match self {
            Language::C(_) => "C"@,
            Language::Cpp(_) => "CXX"@,
        }
    }

    /// The names of all choices: those of C, then those of C++.
    pub fn variants() -> (r: Vec<&'static str>)
        ensures
            r.deep_view() == Self::names(),
    {
        let mut r = CStandard::variants();
        let more = CppStandard::variants();
        let ghost first = r.deep_view();
        let mut i: usize = 0;
        while i < more.len()
            invariant
                i <= more.len(),
                r.deep_view() == first + more.deep_view().take(i as int),
            decreases more.len() - i,
        {
            let ghost before = r.deep_view();
            r.push(more[i]);
            assert(r.deep_view() =~= before.push(more[i as int]@));
            i = i + 1;
        }
        r
    }

    /// The choice called `s`: C++ for the name of a C++ standard, C for the
    /// name of a standard of C; a parse error where `s` names neither.
    pub fn from_str(s: &str) -> (r: Result<Language, Error>)
        ensures
            match Self::parsed(s@) {
                Some(language) => r matches Ok(x) && x == language,
                None => r matches Err(e) && e@ == not_named(),
            },
    {
        match CppStandard::parse(s) {
            Some(standard) => Ok(Language::Cpp(standard)),
            None => match CStandard::parse(s) {
                Some(standard) => Ok(Language::C(standard)),
                None => Err(refuse_name()),
            },
        }
    }

    /// The standard's number.
    pub fn version(&self) -> (r: &'static str)
        ensures
            r@ == self.number(),
    {
        match self {
            Language::C(standard) => standard.version(),
            Language::Cpp(standard) => standard.version(),
        }
    }

    /// The ending of the names of source files.
    pub fn src_suffix(&self) -> (r: &str)
        ensures
            r@ == self.source_ending(),
    {
        match self {
            Language::C(_) => "c",
            Language::Cpp(_) => "cpp",
        }
    }

    /// The ending of the names of header files.
    pub fn header_suffix(&self) -> (r: &str)
        ensures
            r@ == self.header_ending(),
    {
        match self {
            Language::C(_) => "h",
            Language::Cpp(_) => "hpp",
        }
    }

    /// The word by which CMake knows the language.
    pub fn cmake_identifier(&self) -> (r: &str)
        ensures
            r@ == self.cmake_word(),
    {
        match self {
            Language::C(_) => "C",
            Language::Cpp(_) => "CXX",
        }
    }

    /// Every choice is found again under its name, and its name is among
    /// those offered.
    pub proof fn lemma_name_round_trip(self)
        ensures
            Self::parsed(self.name()) == Some(self),
            Self::names().contains(self.name()),
    {
        match self {
            Language::C(standard) => {
                standard.lemma_name_round_trip();
                reveal_strlit("C89");
                reveal_strlit("C99");
                reveal_strlit("C11");
                reveal_strlit("Cpp11");
                reveal_strlit("Cpp14");
                reveal_strlit("Cpp17");
                reveal_strlit("Cpp20");
                reveal_strlit("Cpp23");
                let i = choose|i: int|
                    0 <= i < CStandard::names().len() && CStandard::names()[i] == standard.name();
                assert(Self::names()[i] == standard.name());
            },
            Language::Cpp(standard) => {
                standard.lemma_name_round_trip();
                let i = choose|i: int|
                    0 <= i < CppStandard::names().len() && CppStandard::names()[i]
                        == standard.name();
                assert(Self::names()[CStandard::names().len() + i] == standard.name());
            },
        }
    }
}

} // verus!
