use pessoas::ApiError;
use pessoas::ApiResponse;
use pessoas::CriarPessoaDTO;
use pessoas::PersonRow;
use pessoas::RowStack;
use pessoas::create_user;
use pessoas::controller::created_response;
use pessoas::dto::PessoaDTO;
use pessoas::get_pessoas_by_search_term;
use pessoas::get_user;
use pessoas::parse_person_id;

fn julia_payload(nascimento: &str, stack: Option<&[&str]>) -> CriarPessoaDTO {
    CriarPessoaDTO {
        apelido: "j".to_string(),
        nome: "Julia".to_string(),
        nascimento: nascimento.to_string(),
        stack: stack.map(|items| items.iter().map(|s| s.to_string()).collect()),
    }
}

#[test]
fn invalid_identifier_is_not_found() {
    let r = parse_person_id("not-a-uuid");
    assert!(matches!(r, Err(ApiError::NOT_FOUND)));
    let (status, _) = ApiError::NOT_FOUND.into_response();
    assert_eq!(status, 404);
}

#[test]
fn valid_identifier_parses_to_its_value() {
    let r = parse_person_id("00000000-0000-0000-0000-000000000001");
    assert_eq!(r.unwrap(), 1u128);
}

#[test]
fn missing_row_is_not_found() {
    assert!(matches!(get_user(None), Err(ApiError::NOT_FOUND)));
}

#[test]
fn fetched_row_comes_back_as_person() {
    let row = PersonRow {
        id: "550e8400-e29b-41d4-a716-446655440000".to_string(),
        apelido: "j".to_string(),
        nome: "Julia".to_string(),
        birth_year: 1990,
        birth_month: 1,
        birth_day: 1,
        stack: RowStack::Joined("Rust | Go".to_string()),
    };
    match get_user(Some(&row)) {
        Ok(ApiResponse::Person(dto)) => {
            assert_eq!(dto.id, "550e8400-e29b-41d4-a716-446655440000");
            assert_eq!(dto.apelido, "j");
            assert_eq!(dto.nome, "Julia");
            assert_eq!(dto.nascimento, "1990-01-01");
            assert_eq!(dto.stack, Some(vec!["Rust".to_string(), "Go".to_string()]));
        }
        _ => panic!("expected a person response"),
    }
}

#[test]
fn empty_joined_stack_reads_as_absent() {
    let row = PersonRow {
        id: "id".to_string(),
        apelido: "j".to_string(),
        nome: "Julia".to_string(),
        birth_year: 1990,
        birth_month: 1,
        birth_day: 1,
        stack: RowStack::Joined(String::new()),
    };
    let dto = PessoaDTO::from(&row);
    assert_eq!(dto.stack, None);
}

#[test]
fn empty_pre_split_stack_reads_as_absent() {
    let row = PersonRow {
        id: "id".to_string(),
        apelido: "j".to_string(),
        nome: "Julia".to_string(),
        birth_year: 1990,
        birth_month: 1,
        birth_day: 1,
        stack: RowStack::Split(Vec::new()),
    };
    let dto = PessoaDTO::from(&row);
    assert_eq!(dto.stack, None);
}

#[test]
fn date_is_zero_padded() {
    let row = PersonRow {
        id: "id".to_string(),
        apelido: "j".to_string(),
        nome: "Julia".to_string(),
        birth_year: 1,
        birth_month: 2,
        birth_day: 3,
        stack: RowStack::Split(vec!["Rust".to_string()]),
    };
    let dto = PessoaDTO::from(&row);
    assert_eq!(dto.nascimento, "0001-02-03");
    assert_eq!(dto.stack, Some(vec!["Rust".to_string()]));
}

#[test]
fn create_with_stack_joins_it() {
    let p = julia_payload("1990-01-01", Some(&["Rust", "Go"]));
    let cmd = create_user(&p).unwrap();
    assert_eq!(cmd.nickname, "j");
    assert_eq!(cmd.name, "Julia");
    assert_eq!(cmd.birth_year, 1990);
    assert_eq!(cmd.birth_month, 1);
    assert_eq!(cmd.birth_day, 1);
    assert_eq!(cmd.stack_joined, "Rust | Go");
}

#[test]
fn create_without_stack_stores_empty_string() {
    let p = julia_payload("1990-01-01", None);
    let cmd = create_user(&p).unwrap();
    assert_eq!(cmd.stack_joined, "");
}

#[test]
fn create_with_bad_date_is_bad_request() {
    let p = julia_payload("not-a-date", None);
    let r = create_user(&p);
    assert!(matches!(r, Err(ApiError::BAD_REQUEST)));
    let (status, message) = ApiError::BAD_REQUEST.into_response();
    assert_eq!(status, 400);
    assert_eq!(message, "Bad Request");
}

#[test]
fn create_with_stack_but_bad_date_is_bad_request() {
    // Validation lets the payload through (the stack items are fine),
    // but the birthdate still has to parse before the insert.
    let p = julia_payload("not-a-date", Some(&["Rust"]));
    assert!(matches!(create_user(&p), Err(ApiError::BAD_REQUEST)));
}

#[test]
fn created_response_announces_the_location() {
    let r = created_response(Some("550e8400-e29b-41d4-a716-446655440000".to_string()));
    match r {
        Ok(resp @ ApiResponse::Created(_, _)) => {
            let (status, location) = resp.into_response();
            assert_eq!(status, 201);
            assert_eq!(
                location.as_deref(),
                Some("/pessoas/550e8400-e29b-41d4-a716-446655440000")
            );
        }
        _ => panic!("expected a created response"),
    }
}

#[test]
fn failed_insert_is_unprocessable() {
    let r = created_response(None);
    assert!(matches!(r, Err(ApiError::UNPROCESSABLE_ENTITY)));
    let (status, message) = ApiError::UNPROCESSABLE_ENTITY.into_response();
    assert_eq!(status, 422);
    assert_eq!(message, "Unprocessable Entity");
}

#[test]
fn search_with_no_match_is_ok_and_empty() {
    let rows: Vec<PersonRow> = Vec::new();
    match get_pessoas_by_search_term(Some(&rows)) {
        Ok(resp @ ApiResponse::Persons(_)) => {
            let (status, _) = resp.into_response();
            assert_eq!(status, 200);
            match resp {
                ApiResponse::Persons(dtos) => assert!(dtos.is_empty()),
                _ => unreachable!(),
            }
        }
        _ => panic!("expected a list response"),
    }
}

#[test]
fn create_then_fetch_round_trip() {
    // Create a person with a stack, store the prepared row, and fetch
    // it back: the stack comes back exactly, item for item.
    let p = julia_payload("1990-01-01", Some(&["a", "b"]));
    let cmd = create_user(&p).unwrap();
    let row = PersonRow {
        id: "550e8400-e29b-41d4-a716-446655440000".to_string(),
        apelido: cmd.nickname,
        nome: cmd.name,
        birth_year: cmd.birth_year as u16,
        birth_month: cmd.birth_month,
        birth_day: cmd.birth_day,
        stack: RowStack::Joined(cmd.stack_joined),
    };
    match get_user(Some(&row)) {
        Ok(ApiResponse::Person(dto)) => {
            assert_eq!(dto.nascimento, "1990-01-01");
            assert_eq!(dto.stack, Some(vec!["a".to_string(), "b".to_string()]));
        }
        _ => panic!("expected a person response"),
    }
}

#[test]
fn create_then_fetch_empty_stack_is_absent() {
    let p = julia_payload("1990-01-01", Some(&[]));
    let cmd = create_user(&p).unwrap();
    assert_eq!(cmd.stack_joined, "");
    let row = PersonRow {
        id: "id".to_string(),
        apelido: cmd.nickname,
        nome: cmd.name,
        birth_year: 1990,
        birth_month: 1,
        birth_day: 1,
        stack: RowStack::Joined(cmd.stack_joined),
    };
    let dto = PessoaDTO::from(&row);
    assert_eq!(dto.stack, None);
}

#[test]
fn failed_search_query_is_not_found() {
    assert!(matches!(get_pessoas_by_search_term(None), Err(ApiError::NOT_FOUND)));
}

#[test]
fn search_maps_every_row() {
    let rows = vec![
        PersonRow {
            id: "a".to_string(),
            apelido: "j".to_string(),
            nome: "Julia".to_string(),
            birth_year: 1990,
            birth_month: 1,
            birth_day: 1,
            stack: RowStack::Joined("Rust".to_string()),
        },
        PersonRow {
            id: "b".to_string(),
            apelido: "m".to_string(),
            nome: "Mara".to_string(),
            birth_year: 1985,
            birth_month: 12,
            birth_day: 31,
            stack: RowStack::Joined(String::new()),
        },
    ];
    match get_pessoas_by_search_term(Some(&rows)) {
        Ok(ApiResponse::Persons(dtos)) => {
            assert_eq!(dtos.len(), 2);
            assert_eq!(dtos[0].id, "a");
            assert_eq!(dtos[0].stack, Some(vec!["Rust".to_string()]));
            assert_eq!(dtos[1].nascimento, "1985-12-31");
            assert_eq!(dtos[1].stack, None);
        }
        _ => panic!("expected a list response"),
    }
}
