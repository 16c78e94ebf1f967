//! Assembly of the two queries the listing gateway runs against the
//! secondary inventory view: the row count and the page of rows.
//!
//! Sort field and direction are structural SQL tokens, so they can never
//! be bound as parameters. Both are therefore forced through allow-lists
//! — the twelve known columns, and ASC/DESC — before they reach the
//! query text; anything else falls back to the default. The query text
//! is, by its contract, a function of the validated tokens alone, so no
//! client-supplied text is ever concatenated into it. Tenant name,
//! offset and page size are bound as parameters, in that order.

use vstd::prelude::*;
use vstd::string::StringExecFns;

use crate::model::Params;
use crate::pagination::PagePlan;
use crate::text::ascii_lower;
use crate::text::to_ascii_lower;

verus! {

/// The twelve columns of the inventory view that a client may sort by.
#[derive(Clone, Copy, PartialEq, Eq, Structural)]
pub enum SortField {
    Codice,
    Materiale,
    Spessore,
    DimX,
    DimY,
    Area,
    Peso,
    Ritaglio,
    Qta,
    Udata1,
    Udata2,
    Udata3,
}

/// Sort direction; descending is the default.
#[derive(Clone, Copy, PartialEq, Eq, Structural)]
pub enum SortDir {
    Asc,
    Desc,
}

/// The column name of a sort field, exactly as the view spells it.
pub open spec fn spec_column_name(field: SortField) -> Seq<char> {
    match field {
        SortField::Codice => "Codice"@,
        SortField::Materiale => "Materiale"@,
        SortField::Spessore => "Spessore"@,
        SortField::DimX => "DimX"@,
        SortField::DimY => "DimY"@,
        SortField::Area => "Area"@,
        SortField::Peso => "Peso"@,
        SortField::Ritaglio => "Ritaglio"@,
        SortField::Qta => "Qta"@,
        SortField::Udata1 => "Udata1"@,
        SortField::Udata2 => "Udata2"@,
        SortField::Udata3 => "Udata3"@,
    }
}

/// The SQL spelling of a sort direction.
pub open spec fn spec_dir_sql(dir: SortDir) -> Seq<char> {
    match dir {
        SortDir::Asc => "ASC"@,
        SortDir::Desc => "DESC"@,
    }
}

/// The sort field a request resolves to: the named column if it is on
/// the allow-list, the default column for everything else — a
/// non-whitelisted name is never placed into the query text.
pub open spec fn spec_sort_field(requested: Option<Seq<char>>) -> SortField {
    match requested {
        Some(name) => if name == "Codice"@ {
            SortField::Codice
        } else if name == "Materiale"@ {
            SortField::Materiale
        } else if name == "Spessore"@ {
            SortField::Spessore
        } else if name == "DimX"@ {
            SortField::DimX
        } else if name == "DimY"@ {
            SortField::DimY
        } else if name == "Area"@ {
            SortField::Area
        } else if name == "Peso"@ {
            SortField::Peso
        } else if name == "Ritaglio"@ {
            SortField::Ritaglio
        } else if name == "Qta"@ {
            SortField::Qta
        } else if name == "Udata1"@ {
            SortField::Udata1
        } else if name == "Udata2"@ {
            SortField::Udata2
        } else if name == "Udata3"@ {
            SortField::Udata3
        } else {
            SortField::Codice
        },
        None => SortField::Codice,
    }
}

/// The sort direction a request resolves to: ASC or DESC, compared
/// without regard to ASCII case; everything else is the default DESC.
pub open spec fn spec_sort_dir(requested: Option<Seq<char>>) -> SortDir {
    match requested {
        Some(dir) => if ascii_lower(dir) == "asc"@ {
            SortDir::Asc
        } else {
            SortDir::Desc
        },
        None => SortDir::Desc,
    }
}

/// Resolves the requested sort field against the allow-list.
pub fn validate_sort_field(requested: &Option<String>) -> (field: SortField)
    ensures
        field == spec_sort_field(requested.deep_view()),
{
    match requested {
        Some(name) => {
            if *name == String::from_str("Codice") {
                SortField::Codice
            } else if *name == String::from_str("Materiale") {
                SortField::Materiale
            } else if *name == String::from_str("Spessore") {
                SortField::Spessore
            } else if *name == String::from_str("DimX") {
                SortField::DimX
            } else if *name == String::from_str("DimY") {
                SortField::DimY
            } else if *name == String::from_str("Area") {
                SortField::Area
            } else if *name == String::from_str("Peso") {
                SortField::Peso
            } else if *name == String::from_str("Ritaglio") {
                SortField::Ritaglio
            } else if *name == String::from_str("Qta") {
                SortField::Qta
            } else if *name == String::from_str("Udata1") {
                SortField::Udata1
            } else if *name == String::from_str("Udata2") {
                SortField::Udata2
            } else if *name == String::from_str("Udata3") {
                SortField::Udata3
            } else {
                SortField::Codice
            }
        },
        None => SortField::Codice,
    }
}

/// Resolves the requested sort direction against the allow-list.
pub fn validate_sort_dir(requested: &Option<String>) -> (dir: SortDir)
    ensures
        dir == spec_sort_dir(requested.deep_view()),
{
    match requested {
        Some(name) => {
            let folded = to_ascii_lower(name.as_str());
            if folded == String::from_str("asc") {
                SortDir::Asc
            } else {
                SortDir::Desc
            }
        },
        None => SortDir::Desc,
    }
}

/// The column name, as query text.
pub fn column_name(field: SortField) -> (name: &'static str)
    ensures
        name@ == spec_column_name(field),
{
    match field {
        SortField::Codice => "Codice",
        SortField::Materiale => "Materiale",
        SortField::Spessore => "Spessore",
        SortField::DimX => "DimX",
        SortField::DimY => "DimY",
        SortField::Area => "Area",
        SortField::Peso => "Peso",
        SortField::Ritaglio => "Ritaglio",
        SortField::Qta => "Qta",
        SortField::Udata1 => "Udata1",
        SortField::Udata2 => "Udata2",
        SortField::Udata3 => "Udata3",
    }
}

/// The direction, as query text.
pub fn dir_sql(dir: SortDir) -> (text: &'static str)
    ensures
        text@ == spec_dir_sql(dir),
{
    match dir {
        SortDir::Asc => "ASC",
        SortDir::Desc => "DESC",
    }
}

/// The text of the count query: tenant-scoped exactly when the principal
/// has a tenant name, which is bound as the only parameter.
pub open spec fn spec_count_sql(tenant_scoped: bool) -> Seq<char> {
    if tenant_scoped {
        "select COUNT(*) from SRLMAZZ_LANTEK.dbo.VGiacenzaLamiere WHERE Udata1 = @P1"@
    } else {
        "select COUNT(*) from SRLMAZZ_LANTEK.dbo.VGiacenzaLamiere"@
    }
}

/// The text of the data query: a function of the scoping flag and the
/// two validated sort tokens alone.
pub open spec fn spec_data_sql(tenant_scoped: bool, field: SortField, dir: SortDir) -> Seq<char> {
    "select * from SRLMAZZ_LANTEK.dbo.VGiacenzaLamiere"@ + (if tenant_scoped {
        " WHERE Udata1 = @P1"@
    } else {
        Seq::<char>::empty()
    }) + " ORDER BY "@ + spec_column_name(field) + " "@ + spec_dir_sql(dir) + (if tenant_scoped {
        " OFFSET @P2 ROWS FETCH NEXT @P3 ROWS ONLY"@
    } else {
        " OFFSET @P1 ROWS FETCH NEXT @P2 ROWS ONLY"@
    })
}

/// The count query: its text and the value bound to its only parameter.
pub struct CountQuery {
    pub text: String,
    pub tenant: Option<String>,
}

/// The data query: its text and the values to bind, in binding order —
/// the tenant name (when present), then the row offset, then the row
/// count to fetch.
pub struct DataQuery {
    pub text: String,
    pub tenant: Option<String>,
    pub offset: u32,
    pub fetch: u32,
}

/// Builds the count query for a principal's tenant scope. The tenant
/// name is only ever a bound parameter, never query text.
pub fn build_count_query(tenant: &Option<String>) -> (q: CountQuery)
    ensures
        q.text@ == spec_count_sql(tenant is Some),
        q.tenant.deep_view() == tenant.deep_view(),
{
    match tenant {
        Some(name) => CountQuery {
            text: String::from_str(
                "select COUNT(*) from SRLMAZZ_LANTEK.dbo.VGiacenzaLamiere WHERE Udata1 = @P1",
            ),
            tenant: Some(name.clone()),
        },
        None => CountQuery {
            text: String::from_str("select COUNT(*) from SRLMAZZ_LANTEK.dbo.VGiacenzaLamiere"),
            tenant: None,
        },
    }
}

/// Builds the data query from the validated sort tokens and the page
/// plan. Client text can reach the query only as a bound parameter; the
/// text itself is a function of the allow-listed tokens, which is the
/// injection-safety guarantee of the gateway.
pub fn build_data_query(tenant: &Option<String>, params: &Params, plan: &PagePlan) -> (q: DataQuery)
    ensures
        q.text@ == spec_data_sql(
            tenant is Some,
            spec_sort_field(params.sorting_field.deep_view()),
            spec_sort_dir(params.sorting_dir.deep_view()),
        ),
        q.tenant.deep_view() == tenant.deep_view(),
        q.offset == plan.offset,
        q.fetch == plan.page_size,
{
    let field = validate_sort_field(&params.sorting_field);
    let dir = validate_sort_dir(&params.sorting_dir);
    let mut text = String::from_str("select * from SRLMAZZ_LANTEK.dbo.VGiacenzaLamiere");
    let tenant_bind: Option<String> = match tenant {
        Some(name) => {
            text.append(" WHERE Udata1 = @P1");
            Some(name.clone())
        },
        None => None,
    };
    text.append(" ORDER BY ");
    text.append(column_name(field));
    text.append(" ");
    text.append(dir_sql(dir));
    if tenant_bind.is_some() {
        text.append(" OFFSET @P2 ROWS FETCH NEXT @P3 ROWS ONLY");
    } else {
        text.append(" OFFSET @P1 ROWS FETCH NEXT @P2 ROWS ONLY");
    }
    proof {
        assert(text@ =~= spec_data_sql(
            tenant is Some,
            spec_sort_field(params.sorting_field.deep_view()),
            spec_sort_dir(params.sorting_dir.deep_view()),
        ));
    }
    DataQuery { text, tenant: tenant_bind, offset: plan.offset, fetch: plan.page_size }
}

} // verus!
