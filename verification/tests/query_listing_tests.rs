use auth_gateway::listing::begin_listing;
use auth_gateway::listing::scope_rows;
use auth_gateway::listing::TaggedRow;
use auth_gateway::model::Params;
use auth_gateway::query::build_count_query;
use auth_gateway::query::build_data_query;
use auth_gateway::query::column_name;
use auth_gateway::query::dir_sql;
use auth_gateway::query::validate_sort_dir;
use auth_gateway::query::validate_sort_field;
use auth_gateway::query::SortDir;
use auth_gateway::query::SortField;

fn params(
    page: Option<u32>,
    size: Option<u32>,
    field: Option<&str>,
    dir: Option<&str>,
) -> Params {
    Params {
        page,
        size,
        sorting_dir: dir.map(|s| s.to_string()),
        sorting_field: field.map(|s| s.to_string()),
    }
}

#[test]
fn injection_attempt_in_sort_field_is_rewritten_to_default() {
    let field = validate_sort_field(&Some("Codice; DROP TABLE users--".to_string()));
    assert!(matches!(field, SortField::Codice));
    let field = validate_sort_field(&Some("1 OR 1=1".to_string()));
    assert!(matches!(field, SortField::Codice));
}

#[test]
fn whitelisted_sort_fields_pass() {
    assert!(matches!(validate_sort_field(&Some("Peso".to_string())), SortField::Peso));
    assert!(matches!(validate_sort_field(&Some("Udata3".to_string())), SortField::Udata3));
    assert!(matches!(validate_sort_field(&None), SortField::Codice));
}

#[test]
fn sort_direction_is_case_insensitive_and_defaults_to_desc() {
    assert!(matches!(validate_sort_dir(&Some("asc".to_string())), SortDir::Asc));
    assert!(matches!(validate_sort_dir(&Some("AsC".to_string())), SortDir::Asc));
    assert!(matches!(validate_sort_dir(&Some("desc".to_string())), SortDir::Desc));
    assert!(matches!(validate_sort_dir(&None), SortDir::Desc));
    assert!(matches!(validate_sort_dir(&Some("sideways".to_string())), SortDir::Desc));
}

#[test]
fn structural_tokens_render_to_fixed_text() {
    assert_eq!(column_name(SortField::DimX), "DimX");
    assert_eq!(dir_sql(SortDir::Asc), "ASC");
    assert_eq!(dir_sql(SortDir::Desc), "DESC");
}

#[test]
fn count_query_is_scoped_exactly_when_a_tenant_is_present() {
    let scoped = build_count_query(&Some("acme".to_string()));
    assert_eq!(
        scoped.text,
        "select COUNT(*) from SRLMAZZ_LANTEK.dbo.VGiacenzaLamiere WHERE Udata1 = @P1"
    );
    assert_eq!(scoped.tenant, Some("acme".to_string()));
    let unscoped = build_count_query(&None);
    assert_eq!(unscoped.text, "select COUNT(*) from SRLMAZZ_LANTEK.dbo.VGiacenzaLamiere");
    assert_eq!(unscoped.tenant, None);
}

#[test]
fn data_query_text_never_carries_client_text() {
    let p = params(Some(2), Some(20), Some("Peso; DELETE FROM x"), Some("up"));
    let (phase, _count) = begin_listing(Some("acme".to_string()));
    let (_data, q) = phase.proceed_to_data(Some(45), &p);
    assert_eq!(
        q.text,
        "select * from SRLMAZZ_LANTEK.dbo.VGiacenzaLamiere WHERE Udata1 = @P1 \
         ORDER BY Codice DESC OFFSET @P2 ROWS FETCH NEXT @P3 ROWS ONLY"
    );
    assert!(!q.text.contains("DELETE"));
    assert_eq!(q.tenant, Some("acme".to_string()));
    assert_eq!(q.offset, 20);
    assert_eq!(q.fetch, 20);
}

#[test]
fn unscoped_data_query_binds_offset_first() {
    let p = params(None, Some(5), Some("Area"), Some("asc"));
    let plan = auth_gateway::pagination::plan_page(&p, 12);
    let q = build_data_query(&None, &p, &plan);
    assert_eq!(
        q.text,
        "select * from SRLMAZZ_LANTEK.dbo.VGiacenzaLamiere \
         ORDER BY Area ASC OFFSET @P1 ROWS FETCH NEXT @P2 ROWS ONLY"
    );
    assert_eq!(q.tenant, None);
    assert_eq!(q.offset, 0);
    assert_eq!(q.fetch, 5);
}

#[test]
fn tenant_scope_drops_foreign_and_untagged_rows() {
    let rows = vec![
        TaggedRow { tenant_tag: Some("acme".to_string()), payload: 1 },
        TaggedRow { tenant_tag: Some("rival".to_string()), payload: 2 },
        TaggedRow { tenant_tag: None, payload: 3 },
        TaggedRow { tenant_tag: Some("acme".to_string()), payload: 4 },
    ];
    let kept = scope_rows(rows, &Some("acme".to_string()));
    assert_eq!(kept, vec![1, 4]);
}

#[test]
fn unscoped_principal_sees_every_row() {
    let rows = vec![
        TaggedRow { tenant_tag: Some("acme".to_string()), payload: 1 },
        TaggedRow { tenant_tag: None, payload: 2 },
    ];
    let kept = scope_rows(rows, &None);
    assert_eq!(kept, vec![1, 2]);
}

#[test]
fn listing_flow_builds_the_envelope_from_the_count() {
    let p = params(Some(2), Some(20), None, None);
    let (phase, count_q) = begin_listing(Some("acme".to_string()));
    assert_eq!(
        count_q.text,
        "select COUNT(*) from SRLMAZZ_LANTEK.dbo.VGiacenzaLamiere WHERE Udata1 = @P1"
    );
    let (data_phase, data_q) = phase.proceed_to_data(Some(45), &p);
    assert_eq!(data_q.offset, 20);
    let rows = vec![
        TaggedRow { tenant_tag: Some("acme".to_string()), payload: "row-a".to_string() },
        TaggedRow { tenant_tag: Some("rival".to_string()), payload: "row-b".to_string() },
    ];
    let resp = data_phase.complete(rows);
    assert_eq!(resp.results, vec!["row-a".to_string()]);
    assert_eq!(resp.current_page, 2);
    assert_eq!(resp.total_pages, 3);
    assert_eq!(resp.total_count, 45);
}

#[test]
fn missing_or_negative_count_reads_as_zero() {
    let p = params(Some(1), Some(20), None, None);
    let (phase, _q) = begin_listing(None);
    let (data_phase, q) = phase.proceed_to_data(None, &p);
    assert_eq!(q.offset, 0);
    let resp = data_phase.complete::<u8>(vec![]);
    assert_eq!(resp.total_count, 0);
    assert_eq!(resp.total_pages, 0);
    assert_eq!(resp.current_page, 0);

    let (phase, _q) = begin_listing(None);
    let (data_phase, _q) = phase.proceed_to_data(Some(-7), &p);
    let resp = data_phase.complete::<u8>(vec![]);
    assert_eq!(resp.total_count, 0);
}
