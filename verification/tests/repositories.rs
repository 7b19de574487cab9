use finlife::modules::currencies::currency_model::{Currency, FxRate};
use finlife::modules::currencies::currency_repo::{
    CurrencyRepository, CurrencyRepositoryInterface, FxRateRepository, FxRateRepositoryInterface,
};
use finlife::modules::locations::location_model::Location;
use finlife::modules::locations::location_repo::{LocationRepository, LocationRepositoryInterface};
use finlife::modules::people::people_repo::{PeopleRepository, PeopleRepositoryInterface};
use finlife::modules::users::user::user_repo::{UserRepository, UserRepositoryInterface};
use finlife::shared::crud_repository::{build_call_statement, CallShape, CrudRepository};
use finlife::shared::db::param::MySqlParam;
use finlife::shared::decimal::Decimal;
use finlife::shared::ids::Uuid;
use finlife::shared::temporal::NaiveDate;

fn meta() -> Uuid {
    Uuid::from_bytes([0xaa; 16])
}

fn meta_param() -> MySqlParam {
    MySqlParam::OptBytes(Some(vec![0xaa; 16]))
}

#[test]
fn call_statement_has_one_placeholder_for_each_parameter() {
    assert_eq!(build_call_statement("proc_x", 0), "CALL proc_x()");
    assert_eq!(build_call_statement("proc_x", 1), "CALL proc_x(?)");
    assert_eq!(build_call_statement("proc_x", 2), "CALL proc_x(?, ?)");
    assert_eq!(build_call_statement("proc_location_create", 11), "CALL proc_location_create(?, ?, ?, ?, ?, ?, ?, ?, ?, ?, ?)");
}

#[test]
fn the_four_call_shapes_differ_only_in_the_shape() {
    let repository = CurrencyRepository {};
    let params = || vec![MySqlParam::I32(7)];
    let execute = repository.call_procedure("p", params());
    let optional = repository.call_procedure_for_optional("p", params());
    let one = repository.call_procedure_for_one("p", params());
    let list = repository.call_procedure_for_list("p", params());
    assert_eq!(execute.shape, CallShape::Execute);
    assert_eq!(optional.shape, CallShape::FetchOptional);
    assert_eq!(one.shape, CallShape::FetchOne);
    assert_eq!(list.shape, CallShape::FetchList);
    for call in [&execute, &optional, &one, &list] {
        assert_eq!(call.query, "CALL p(?)");
        assert_eq!(call.params, params());
    }
}

#[test]
fn currency_get_binds_the_code_and_the_acting_user() {
    let call = CurrencyRepository {}.get("EUR".to_string(), Some(meta()));
    assert_eq!(call.query, "CALL proc_currency_get_by_code(?, ?)");
    assert_eq!(call.params, vec![MySqlParam::String("EUR".to_string()), meta_param()]);
    assert_eq!(call.shape, CallShape::FetchOptional);
}

#[test]
fn a_call_without_acting_user_binds_null_last() {
    let call = CurrencyRepository {}.get_all(None);
    assert_eq!(call.query, "CALL proc_currency_list(?)");
    assert_eq!(call.params, vec![MySqlParam::OptBytes(None)]);
    assert_eq!(call.shape, CallShape::FetchList);
}

#[test]
fn currency_create_binds_the_fields_in_order() {
    let currency = Currency { code: "JPY".to_string(), name: "Yen".to_string(), minor_unit: 0 };
    let call = CurrencyRepository {}.create(currency, Some(meta()));
    assert_eq!(call.query, "CALL proc_currency_insert(?, ?, ?, ?)");
    assert_eq!(
        call.params,
        vec![
            MySqlParam::String("JPY".to_string()),
            MySqlParam::String("Yen".to_string()),
            MySqlParam::U8(0),
            meta_param(),
        ]
    );
    assert_eq!(call.shape, CallShape::FetchOne);
}

#[test]
fn currency_update_and_delete_name_their_procedures() {
    let repository = CurrencyRepository {};
    let update = repository.update_name("EUR".to_string(), "Euro".to_string(), Some(meta()));
    assert_eq!(update.query, "CALL proc_currency_update_name(?, ?, ?)");
    assert_eq!(update.shape, CallShape::FetchOptional);
    let delete = repository.delete("EUR".to_string(), Some(meta()));
    assert_eq!(delete.query, "CALL proc_currency_delete(?, ?)");
    assert_eq!(delete.shape, CallShape::Execute);
}

#[test]
fn fx_rate_calls_bind_the_identity_as_bytes() {
    let id = Uuid::from_bytes([3u8; 16]);
    let repository = FxRateRepository {};
    let get = repository.get(id, Some(meta()));
    assert_eq!(get.query, "CALL proc_fx_rate_get_by_id(?, ?)");
    assert_eq!(get.params, vec![MySqlParam::Bytes(vec![3u8; 16]), meta_param()]);
    let rate = Decimal::new(12, 1).unwrap();
    let update = repository.update(id, rate, Some(meta()));
    assert_eq!(update.query, "CALL proc_fx_rate_update_rate(?, ?, ?)");
    assert_eq!(
        update.params,
        vec![MySqlParam::Bytes(vec![3u8; 16]), MySqlParam::Decimal(rate), meta_param()]
    );
    assert_eq!(repository.delete(id, None).query, "CALL proc_fx_rate_delete(?, ?)");
    assert_eq!(repository.get_all(None).query, "CALL proc_fx_rate_list(?)");
    let by_code = repository.get_by_base_code("EUR".to_string(), None);
    assert_eq!(by_code.query, "CALL proc_fx_rate_by_code(?, ?)");
    assert_eq!(by_code.shape, CallShape::FetchList);
}

#[test]
fn fx_rate_create_leaves_out_what_the_store_assigns() {
    let rate = Decimal::new(10875, 4).unwrap();
    let fx_rate = FxRate {
        id: None,
        base_code: "EUR".to_string(),
        quote_code: "USD".to_string(),
        rate,
        as_of_date: NaiveDate { days_from_ce: 739_000 },
        source: "ecb".to_string(),
        created_at: None,
    };
    let call = FxRateRepository {}.create(fx_rate, Some(meta()));
    assert_eq!(call.query, "CALL proc_fx_rate_create(?, ?, ?, ?, ?, ?)");
    assert_eq!(
        call.params,
        vec![
            MySqlParam::String("EUR".to_string()),
            MySqlParam::String("USD".to_string()),
            MySqlParam::Decimal(rate),
            MySqlParam::NaiveDate(NaiveDate { days_from_ce: 739_000 }),
            MySqlParam::String("ecb".to_string()),
            meta_param(),
        ]
    );
}

#[test]
fn people_calls_name_their_procedures() {
    let id = Uuid::from_bytes([4u8; 16]);
    let repository = PeopleRepository {};
    assert_eq!(repository.get(id, None).query, "CALL proc_people_get_by_id(?, ?)");
    let image = repository.update_image(id, Some("http://x/y.png".to_string()), None);
    assert_eq!(image.query, "CALL proc_people_update_image(?, ?, ?)");
    assert_eq!(image.params[1], MySqlParam::OptString(Some("http://x/y.png".to_string())));
    let update = repository.update(id, "Ada".to_string(), None, None, None, None);
    assert_eq!(update.query, "CALL proc_people_update(?, ?, ?, ?, ?, ?)");
    let archived = repository.archived(id, true, Some(meta()));
    assert_eq!(archived.query, "CALL proc_people_update_archived(?, ?, ?)");
    assert_eq!(
        archived.params,
        vec![MySqlParam::Bytes(vec![4u8; 16]), MySqlParam::Bool(true), meta_param()]
    );
    assert_eq!(repository.delete(id, None).query, "CALL proc_people_delete(?, ?)");
    let list = repository.get_all(Some(20), Some(40), None);
    assert_eq!(list.query, "CALL proc_people_list(?, ?, ?)");
    assert_eq!(
        list.params,
        vec![MySqlParam::OptU32(Some(20)), MySqlParam::OptU32(Some(40)), MySqlParam::OptBytes(None)]
    );
    assert_eq!(repository.get_by_user(id, None).query, "CALL proc_people_by_user(?, ?)");
    let search = repository.search("ada".to_string(), None, None, None);
    assert_eq!(search.query, "CALL proc_people_search(?, ?, ?, ?)");
    let by_user = repository.search_by_user(id, "ada".to_string(), None);
    assert_eq!(by_user.query, "CALL proc_people_search_by_user(?, ?, ?)");
}

#[test]
fn location_create_binds_eleven_parameters() {
    let location = Location {
        id: None,
        user_id: vec![5u8; 16],
        name: "Home".to_string(),
        address: Some("1 Main St".to_string()),
        city: None,
        region: None,
        postal_code: None,
        country_code: Some("FR".to_string()),
        latitude: Decimal::new(488566, 4),
        longitude: None,
        archived: false,
        created_at: None,
        updated_at: None,
    };
    let call = LocationRepository {}.create(location, Some(meta()));
    assert_eq!(call.query, "CALL proc_location_create(?, ?, ?, ?, ?, ?, ?, ?, ?, ?, ?)");
    assert_eq!(call.params.len(), 11);
    assert_eq!(call.params[0], MySqlParam::Bytes(vec![5u8; 16]));
    assert_eq!(call.params[1], MySqlParam::String("Home".to_string()));
    assert_eq!(call.params[2], MySqlParam::OptString(Some("1 Main St".to_string())));
    assert_eq!(call.params[3], MySqlParam::OptString(None));
    assert_eq!(call.params[6], MySqlParam::OptString(Some("FR".to_string())));
    assert_eq!(call.params[7], MySqlParam::OptDecimal(Decimal::new(488566, 4)));
    assert_eq!(call.params[8], MySqlParam::OptDecimal(None));
    assert_eq!(call.params[9], MySqlParam::Bool(false));
    assert_eq!(call.params[10], meta_param());
}

#[test]
fn location_calls_name_their_procedures() {
    let id = Uuid::from_bytes([6u8; 16]);
    let repository = LocationRepository {};
    assert_eq!(repository.get(id, None).query, "CALL proc_location_get_by_id(?, ?)");
    assert_eq!(
        repository.update_name(id, "Work".to_string(), None).query,
        "CALL proc_location_update_name(?, ?, ?)"
    );
    assert_eq!(
        repository.update(id, None, None, None, None, None, None).query,
        "CALL proc_location_update(?, ?, ?, ?, ?, ?, ?)"
    );
    assert_eq!(
        repository.update_lat_long(id, None, None, None).query,
        "CALL proc_location_update_lat_long(?, ?, ?, ?)"
    );
    assert_eq!(
        repository.archived(id, false, None).query,
        "CALL proc_location_update_archived(?, ?, ?)"
    );
    assert_eq!(repository.delete(id, None).query, "CALL proc_location_delete(?, ?)");
    assert_eq!(repository.get_all(None, None, None).query, "CALL proc_location_list(?, ?, ?)");
    assert_eq!(repository.get_by_user(id, None).query, "CALL proc_location_by_user(?, ?)");
    assert_eq!(
        repository.search("x".to_string(), None, None, None).query,
        "CALL proc_location_search(?, ?, ?, ?)"
    );
    assert_eq!(
        repository.search_by_user(id, "x".to_string(), None).query,
        "CALL proc_location_search_by_user(?, ?, ?)"
    );
}

#[test]
fn user_calls_name_their_procedures() {
    let id = Uuid::from_bytes([8u8; 16]);
    let repository = UserRepository {};
    assert_eq!(repository.get(id, None).query, "CALL proc_user_get_by_id(?, ?)");
    let password = repository.update_password(id, "secret".to_string(), None);
    assert_eq!(password.query, "CALL proc_user_update_password(?, ?, ?)");
    assert_eq!(password.params[1], MySqlParam::String("secret".to_string()));
    assert_eq!(
        repository.update_name(id, "A".to_string(), "B".to_string(), None).query,
        "CALL proc_user_update_name(?, ?, ?, ?)"
    );
    assert_eq!(
        repository.update_base_currency(id, "EUR".to_string(), None).query,
        "CALL proc_user_update_base_currency(?, ?, ?)"
    );
    assert_eq!(repository.delete(id, None).query, "CALL proc_user_delete(?, ?)");
    let by_email = repository.get_by_email("a@b.c".to_string(), None);
    assert_eq!(by_email.query, "CALL proc_user_get_by_email(?, ?)");
    assert_eq!(
        by_email.params,
        vec![MySqlParam::String("a@b.c".to_string()), MySqlParam::OptBytes(None)]
    );
    assert_eq!(repository.get_all(Some(1), None, None).query, "CALL proc_user_list(?, ?, ?)");
}

#[test]
fn a_copy_of_a_call_equals_the_call() {
    let call = CurrencyRepository {}.get("EUR".to_string(), Some(meta()));
    assert_eq!(call.replicate(), call);
}

#[test]
fn values_convert_into_the_parameter_of_their_type() {
    assert_eq!(MySqlParam::from(-5i8), MySqlParam::I8(-5));
    assert_eq!(MySqlParam::from(-5i16), MySqlParam::I16(-5));
    assert_eq!(MySqlParam::from(-5i32), MySqlParam::I32(-5));
    assert_eq!(MySqlParam::from(-5i64), MySqlParam::I64(-5));
    assert_eq!(MySqlParam::from(5u8), MySqlParam::U8(5));
    assert_eq!(MySqlParam::from(5u16), MySqlParam::U16(5));
    assert_eq!(MySqlParam::from(5u32), MySqlParam::U32(5));
    assert_eq!(MySqlParam::from(5u64), MySqlParam::U64(5));
    assert_eq!(MySqlParam::from(true), MySqlParam::Bool(true));
    assert_eq!(MySqlParam::from("x".to_string()), MySqlParam::String("x".to_string()));
    assert_eq!(MySqlParam::from(&"x".to_string()), MySqlParam::String("x".to_string()));
    assert_eq!(MySqlParam::from(vec![1u8, 2]), MySqlParam::Bytes(vec![1, 2]));
    assert_eq!(MySqlParam::from(Some(5u32)), MySqlParam::OptU32(Some(5)));
    assert_eq!(MySqlParam::from(None::<u32>), MySqlParam::OptU32(None));
    assert_eq!(MySqlParam::from(None::<String>), MySqlParam::OptString(None));
    assert_eq!(MySqlParam::from(Some(vec![9u8])), MySqlParam::OptBytes(Some(vec![9])));
    assert_eq!(MySqlParam::from(Some(false)), MySqlParam::OptBool(Some(false)));
    let day = NaiveDate { days_from_ce: 1 };
    assert_eq!(MySqlParam::from(day), MySqlParam::NaiveDate(day));
    assert_eq!(MySqlParam::from(Some(day)), MySqlParam::OptNaiveDate(Some(day)));
    let id = Uuid::from_bytes([1u8; 16]);
    assert_eq!(MySqlParam::from(id), MySqlParam::Uuid(id));
    assert_eq!(MySqlParam::from(Some(id)), MySqlParam::OptUuid(Some(id)));
    let rate = Decimal::new(15, 1).unwrap();
    assert_eq!(MySqlParam::from(rate), MySqlParam::Decimal(rate));
    assert_eq!(MySqlParam::from(None::<Decimal>), MySqlParam::OptDecimal(None));
}
