//! The person record as it crosses the library's boundaries: the
//! creation payload, the JSON-facing person, the query shape, and the
//! in-memory image of a store row.

use crate::codec::date_str;
use crate::codec::format_date;
use crate::codec::read_stack;
use crate::codec::split_stack;
use crate::codec::stack_view;
use vstd::prelude::*;
use vstd::string::*;

verus! {

/// The stack column of a fetched row: either the joined string the
/// store keeps, or a list the store already split.
pub enum RowStack {
    Joined(String),
    Split(Vec<String>),
}

/// How a row's stack column reads back as an optional list: a joined
/// string decodes through the codec, an already-split list is taken as
/// it is. Either way an empty stored stack reads as absent, never as
/// an empty list.
pub open spec fn row_stack_view(rs: RowStack) -> Option<Seq<Seq<char>>> {
    match rs {
        RowStack::Joined(s) => read_stack(s@),
        RowStack::Split(items) => if items.deep_view().len() == 0 {
            None
        } else {
            Some(items.deep_view())
        },
    }
}

/// The search query: the required term `t`.
pub struct PessoaQuery {
    pub t: String,
}

/// The creation payload: nickname, name, birthdate text, and an
/// optional stack list.
#[derive(Debug)]
pub struct CriarPessoaDTO {
    pub apelido: String,
    pub nome: String,
    pub nascimento: String,
    pub stack: Option<Vec<String>>,
}

/// The JSON-facing person: the store-assigned identifier and the
/// payload fields, with the birthdate shown as `YYYY-MM-DD`.
#[derive(Debug)]
pub struct PessoaDTO {
    pub id: String,
    pub apelido: String,
    pub nome: String,
    pub nascimento: String,
    pub stack: Option<Vec<String>>,
}

/// A store row for a person, with each column as a plain value. The
/// stack column arrives either still joined or already split.
pub struct PersonRow {
    pub id: String,
    pub apelido: String,
    pub nome: String,
    pub birth_year: u16,
    pub birth_month: u8,
    pub birth_day: u8,
    pub stack: RowStack,
}

impl PersonRow {
    /// A well-formed row holds a date the store could have kept: a
    /// four-digit year and in-range month and day.
    pub open spec fn wf(&self) -> bool {
        &&& self.birth_year <= 9999
        &&& 1 <= self.birth_month <= 12
        &&& 1 <= self.birth_day <= 31
    }
}

/// How a person read from the given row looks: same identifier,
/// nickname and name, the birthdate formatted as `YYYY-MM-DD`, and the
/// stack decoded from its column.
pub open spec fn dto_matches_row(dto: PessoaDTO, row: PersonRow) -> bool {
    &&& dto.id@ == row.id@
    &&& dto.apelido@ == row.apelido@
    &&& dto.nome@ == row.nome@
    &&& dto.nascimento@ == date_str(
        row.birth_year as int,
        row.birth_month as int,
        row.birth_day as int,
    )
    &&& stack_view(dto.stack) == row_stack_view(row.stack)
}

impl PessoaDTO {
    /// Reads a person out of a store row.
    pub fn from(row: &PersonRow) -> (dto: PessoaDTO)
        requires
            row.wf(),
        ensures
            dto_matches_row(dto, *row),
    {
        let nascimento = format_date(row.birth_year, row.birth_month, row.birth_day);
        let stack = match &row.stack {
            RowStack::Joined(s) => split_stack(s.as_str()),
            RowStack::Split(items) => if items.len() == 0 {
                None
            } else {
                Some(items.clone())
            },
        };
        PessoaDTO {
            id: row.id.clone(),
            apelido: row.apelido.clone(),
            nome: row.nome.clone(),
            nascimento,
            stack,
        }
    }
}

} // verus!
