use vstd::prelude::*;

verus! {

/// One value bound to a `$n` placeholder of a SQL statement.
///
/// The columns of this schema hold 32-bit ids, 64-bit counters and
/// limits, text, nullable text and ids, timestamps (kept as
/// Unix seconds; the driver turns them into SQL timestamps), and
/// decimal numbers (kept as their decimal text; the driver parses
/// them into the floating-point column type).
#[derive(Debug, PartialEq, Eq)]
pub enum Bind {
    Id(i32),
    OptId(Option<i32>),
    Count(i64),
    Text(String),
    OptText(Option<String>),
    Timestamp(i64),
    Decimal(String),
}

/// The mathematical value of a `Bind`.
pub ghost enum BindV {
    Id(int),
    OptId(Option<int>),
    Count(int),
    Text(Seq<char>),
    OptText(Option<Seq<char>>),
    Timestamp(int),
    Decimal(Seq<char>),
}

impl View for Bind {
    type V = BindV;

    open spec fn view(&self) -> BindV {
        match self {
            Bind::Id(v) => BindV::Id(*v as int),
            Bind::OptId(v) => match v {
                Some(i) => BindV::OptId(Some(*i as int)),
                None => BindV::OptId(None),
            },
            Bind::Count(v) => BindV::Count(*v as int),
            Bind::Text(v) => BindV::Text(v@),
            Bind::OptText(v) => match v {
                Some(s) => BindV::OptText(Some(s@)),
                None => BindV::OptText(None),
            },
            Bind::Timestamp(v) => BindV::Timestamp(*v as int),
            Bind::Decimal(v) => BindV::Decimal(v@),
        }
    }
}

/// The mathematical value of an optional id.
pub open spec fn opt_id_view(v: Option<i32>) -> Option<int> {
    match v {
        Some(i) => Some(i as int),
        None => None,
    }
}

/// The mathematical value of an optional string.
pub open spec fn opt_text_view(s: Option<String>) -> Option<Seq<char>> {
    match s {
        Some(v) => Some(v@),
        None => None,
    }
}

/// A copy of an optional string, for binding it while the caller keeps
/// its value.
pub fn clone_opt_string(s: &Option<String>) -> (r: Option<String>)
    ensures
        r == *s,
{
    match s {
        Some(v) => Some(v.clone()),
        None => None,
    }
}

/// One SQL statement ready to be run: its text and, in order, the
/// values for its `$1`, `$2`, ... placeholders.
#[derive(Debug)]
pub struct Statement {
    pub sql: String,
    pub binds: Vec<Bind>,
}

/// The mathematical value of a `Statement`.
pub ghost struct StatementV {
    pub sql: Seq<char>,
    pub binds: Seq<BindV>,
}

impl View for Statement {
    type V = StatementV;

    open spec fn view(&self) -> StatementV {
        StatementV { sql: self.sql@, binds: self.binds@.map_values(|b: Bind| b@) }
    }
}

} // verus!
