//! The three request operations — fetch by identifier, search by
//! term, and create — as decision functions from plain values to the
//! response or error each request ends with. The store round trip
//! itself happens outside the library; its outcome comes in as an
//! argument.

use crate::codec::join_stack;
use crate::codec::joined_stack;
use crate::codec::stack_view;
use crate::dto::CriarPessoaDTO;
use crate::dto::PersonRow;
use crate::dto::PessoaDTO;
use crate::dto::dto_matches_row;
use crate::errors::ApiError;
use crate::validation::date_of;
use crate::validation::parse_birthdate;
use crate::validation::payload_valid;
use crate::validation::validate_payload;
use vstd::prelude::*;
use vstd::string::*;

verus! {

/// What parsing a person identifier yields: the 128-bit value of a
/// well-formed unique identifier, or nothing. The result depends on
/// the text alone.
pub uninterp spec fn uuid_of(s: Seq<char>) -> Option<u128>;

/// Relies on uuid's `Uuid::parse_str` and `Uuid::as_u128`: parsing
/// accepts exactly the well-formed identifier strings, and the 128-bit
/// value carries the whole identifier.
#[verifier::external_body]
fn parse_uuid(s: &str) -> (r: Option<u128>)
    ensures
        r == uuid_of(s@),
{
    match uuid::Uuid::parse_str(s) {
        Ok(u) => Some(u.as_u128()),
        Err(_) => None,
    }
}

/// A successful response: a fetched person, a search result list, or
/// the location and identifier of a person just created.
pub enum ApiResponse {
    Person(PessoaDTO),
    Persons(Vec<PessoaDTO>),
    Created(String, String),
}

impl ApiResponse {
    /// The HTTP shape of the response: its status code, and the
    /// `Location` header value a creation carries.
    pub fn into_response(&self) -> (r: (u16, Option<String>))
        ensures
            self matches ApiResponse::Person(_) ==> r.0 == 200 && r.1 is None,
            self matches ApiResponse::Persons(_) ==> r.0 == 200 && r.1 is None,
            self matches ApiResponse::Created(loc, _) ==> r.0 == 201 && (r.1 matches Some(l) && l@
                == loc@),
    {
        match self {
            ApiResponse::Person(_) => (200, None),
            ApiResponse::Persons(_) => (200, None),
            ApiResponse::Created(loc, _) => (201, Some(loc.clone())),
        }
    }
}

/// Reads a path identifier ahead of a point lookup: a string that is
/// not a well-formed unique identifier is already not found.
pub fn parse_person_id(id: &str) -> (r: Result<u128, ApiError>)
    ensures
        r is Ok <==> uuid_of(id@) is Some,
        r matches Ok(u) ==> Some(u) == uuid_of(id@),
        r matches Err(e) ==> e == ApiError::NOT_FOUND,
{
    match parse_uuid(id) {
        Some(u) => Ok(u),
        None => Err(ApiError::NOT_FOUND),
    }
}

/// Shapes the fetch-by-identifier response from the looked-up row: a
/// missing row is not found, a present one is returned as a person.
pub fn get_user(fetched: Option<&PersonRow>) -> (r: Result<ApiResponse, ApiError>)
    requires
        fetched matches Some(row) ==> row.wf(),
    ensures
        fetched is None ==> r == Err::<ApiResponse, ApiError>(ApiError::NOT_FOUND),
        fetched matches Some(row) ==> r matches Ok(resp) && resp matches ApiResponse::Person(dto)
            && dto_matches_row(dto, *row),
{
    match fetched {
        None => Err(ApiError::NOT_FOUND),
        Some(row) => Ok(ApiResponse::Person(PessoaDTO::from(row))),
    }
}

/// Everything the store needs to insert a person: the validated
/// fields, the parsed birthdate, and the stack already joined for its
/// column.
pub struct InsertCommand {
    pub nickname: String,
    pub name: String,
    pub birth_year: i32,
    pub birth_month: u8,
    pub birth_day: u8,
    pub stack_joined: String,
}

/// Turns a creation payload into the insert the store should run:
/// validation and birthdate parsing decide between the insert and a
/// bad request.
pub fn create_user(payload: &CriarPessoaDTO) -> (r: Result<InsertCommand, ApiError>)
    ensures
        r is Ok <==> payload_valid(
            payload.apelido@,
            payload.nome@,
            payload.nascimento@,
            stack_view(payload.stack),
        ) && date_of(payload.nascimento@) is Some,
        r matches Err(e) ==> e == ApiError::BAD_REQUEST,
        r matches Ok(cmd) ==> {
            &&& cmd.nickname@ == payload.apelido@
            &&& cmd.name@ == payload.nome@
            &&& Some((cmd.birth_year, cmd.birth_month, cmd.birth_day)) == date_of(
                payload.nascimento@,
            )
            &&& 1 <= cmd.birth_month <= 12 && 1 <= cmd.birth_day <= 31
            &&& cmd.stack_joined@ == joined_stack(stack_view(payload.stack))
        },
{
    let valid = validate_payload(payload);
    if valid.is_err() {
        return Err(ApiError::BAD_REQUEST);
    }
    let stack_joined = join_stack(&payload.stack);
    let (birth_year, birth_month, birth_day) = match parse_birthdate(payload.nascimento.as_str()) {
        Some(d) => d,
        None => {
            return Err(ApiError::BAD_REQUEST);
        },
    };
    Ok(
        InsertCommand {
            nickname: payload.apelido.clone(),
            name: payload.nome.clone(),
            birth_year,
            birth_month,
            birth_day,
            stack_joined,
        },
    )
}

/// Shapes the creation response from the store's answer: a failed
/// insert is unprocessable, a new identifier is announced with status
/// 201 under `/pessoas/{id}`.
pub fn created_response(insert_result: Option<String>) -> (r: Result<ApiResponse, ApiError>)
    ensures
        insert_result is None ==> r == Err::<ApiResponse, ApiError>(
            ApiError::UNPROCESSABLE_ENTITY,
        ),
        insert_result matches Some(id) ==> r matches Ok(resp) && resp matches ApiResponse::Created(
            loc,
            rid,
        ) && rid@ == id@ && loc@ == "/pessoas/"@ + id@,
{
    match insert_result {
        None => Err(ApiError::UNPROCESSABLE_ENTITY),
        Some(id) => {
            let loc = String::from_str("/pessoas/").concat(id.as_str());
            Ok(ApiResponse::Created(loc, id))
        },
    }
}

/// Shapes the search response from the fetched rows: a failed query is
/// not found, a successful one returns every row as a person — an
/// empty result list is a success, not an error.
pub fn get_pessoas_by_search_term(rows: Option<&Vec<PersonRow>>) -> (r: Result<
    ApiResponse,
    ApiError,
>)
    requires
        rows matches Some(v) ==> forall|i: int| 0 <= i < v.len() ==> (#[trigger] v[i]).wf(),
    ensures
        rows is None ==> r == Err::<ApiResponse, ApiError>(ApiError::NOT_FOUND),
        rows matches Some(v) ==> r matches Ok(resp) && resp matches ApiResponse::Persons(dtos)
            && dtos.len() == v.len() && forall|i: int|
            0 <= i < v.len() ==> dto_matches_row(#[trigger] dtos[i], v[i]),
{
    match rows {
        None => Err(ApiError::NOT_FOUND),
        Some(v) => {
            let mut dtos: Vec<PessoaDTO> = Vec::new();
            let mut i: usize = 0;
            while i < v.len()
                invariant
                    i <= v.len(),
                    dtos.len() == i,
                    forall|i2: int| 0 <= i2 < v.len() ==> (#[trigger] v[i2]).wf(),
                    forall|j: int| 0 <= j < i ==> dto_matches_row(#[trigger] dtos[j], v[j]),
                decreases v.len() - i,
            {
                dtos.push(PessoaDTO::from(&v[i]));
                i += 1;
            }
            Ok(ApiResponse::Persons(dtos))
        },
    }
}

} // verus!
