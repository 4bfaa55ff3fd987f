//! Validation of creation payloads, and the birthdate parser the
//! service runs it with.

use crate::codec::stack_view;
use crate::dto::CriarPessoaDTO;
use crate::errors::ApiError;
use chrono::Datelike;
use vstd::prelude::*;
use vstd::string::*;

verus! {

/// What parsing a birthdate text as a `YYYY-MM-DD` calendar date
/// yields: the year, month and day of a valid date, or nothing. The
/// result depends on the text alone.
pub uninterp spec fn date_of(s: Seq<char>) -> Option<(i32, u8, u8)>;

/// Relies on chrono's `NaiveDate::parse_from_str` with the `%Y-%m-%d`
/// format, and on its `Datelike` accessors: a parsed `NaiveDate` is a
/// valid calendar date, with the month in 1..=12 and the day in 1..=31.
#[verifier::external_body]
pub(crate) fn parse_birthdate(s: &str) -> (r: Option<(i32, u8, u8)>)
    ensures
        r == date_of(s@),
        r matches Some(d) ==> 1 <= d.1 <= 12 && 1 <= d.2 <= 31,
{
    match chrono::NaiveDate::parse_from_str(s, "%Y-%m-%d") {
        Ok(date) => Some((date.year(), date.month() as u8, date.day() as u8)),
        Err(_) => None,
    }
}

/// Every stack item has at most 32 characters.
pub open spec fn stack_items_ok(items: Seq<Seq<char>>) -> bool {
    forall|i: int| 0 <= i < items.len() ==> (#[trigger] items[i]).len() <= 32
}

/// When a creation payload passes validation. With a stack list
/// present only the items' lengths are checked, each at most 32
/// characters; without one, the nickname is checked at 32, the name at
/// 100, and the birthdate text must parse as a calendar date.
pub open spec fn payload_valid(
    apelido: Seq<char>,
    nome: Seq<char>,
    nascimento: Seq<char>,
    stack: Option<Seq<Seq<char>>>,
) -> bool {
    match stack {
        Some(items) => stack_items_ok(items),
        None => apelido.len() <= 32 && nome.len() <= 100 && date_of(nascimento) is Some,
    }
}

/// Checks a creation payload, with a bad request as the only failure.
pub fn validate_payload(payload: &CriarPessoaDTO) -> (r: Result<(), ApiError>)
    ensures
        r is Ok <==> payload_valid(
            payload.apelido@,
            payload.nome@,
            payload.nascimento@,
            stack_view(payload.stack),
        ),
        r matches Err(e) ==> e == ApiError::BAD_REQUEST,
{
    match &payload.stack {
        Some(items) => {
            let mut i: usize = 0;
            while i < items.len()
                invariant
                    payload.stack == Some(*items),
                    i <= items.len(),
                    forall|j: int|
                        0 <= j < i ==> (#[trigger] items.deep_view()[j]).len() <= 32,
                decreases items.len() - i,
            {
                if items[i].as_str().unicode_len() > 32 {
                    proof {
                        let dv = items.deep_view();
                        assert(dv[i as int].len() > 32);
                        assert(!stack_items_ok(dv)) by {
                            if stack_items_ok(dv) {
                                assert(dv[i as int].len() <= 32);
                            }
                        }
                    }
                    return Err(ApiError::BAD_REQUEST);
                }
                i += 1;
            }
            Ok(())
        },
        None => {
            if payload.apelido.as_str().unicode_len() > 32 || payload.nome.as_str().unicode_len()
                > 100 || parse_birthdate(payload.nascimento.as_str()).is_none() {
                Err(ApiError::BAD_REQUEST)
            } else {
                Ok(())
            }
        },
    }
}

/// A creation payload without a stack list whose nickname has at most
/// 32 characters, whose name has at most 100, and whose birthdate text
/// parses as a calendar date, passes validation.
pub proof fn lemma_no_stack_payload_accepted(
    apelido: Seq<char>,
    nome: Seq<char>,
    nascimento: Seq<char>,
)
    ensures
        apelido.len() <= 32 && nome.len() <= 100 && date_of(nascimento) is Some ==> payload_valid(
            apelido,
            nome,
            nascimento,
            None,
        ),
{
}

/// A creation payload whose stack list holds any item of more than 32
/// characters fails validation, whatever the other fields hold.
pub proof fn lemma_oversized_stack_item_rejected(
    apelido: Seq<char>,
    nome: Seq<char>,
    nascimento: Seq<char>,
    items: Seq<Seq<char>>,
    i: int,
)
    ensures
        0 <= i < items.len() && items[i].len() > 32 ==> !payload_valid(
            apelido,
            nome,
            nascimento,
            Some(items),
        ),
{
    if 0 <= i < items.len() && items[i].len() > 32 {
        if payload_valid(apelido, nome, nascimento, Some(items)) {
            assert(items[i].len() <= 32);
        }
        assert(!payload_valid(apelido, nome, nascimento, Some(items)));
    }
}

} // verus!
