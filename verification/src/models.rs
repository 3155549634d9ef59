use vstd::prelude::*;
use crate::json::{
    json_object, json_object_exec, json_string, number_field, string_field, u32_field, views_of,
    JsonNumber,
};
use crate::string_map::StringMap;
use crate::text::spec_decimal;

verus! {

/// Optional query parameters, keyed by parameter name.
pub type QueryParams = StringMap;

/// Basic pagination parameters.
#[derive(Debug, Clone)]
pub struct PaginationParams {
    pub page: Option<u32>,
    pub page_size: Option<u32>,
}

impl PaginationParams {
    /// The rendered fields, in declaration order; an absent field is omitted
    /// entirely, never rendered as null.
    pub open spec fn spec_fields(&self) -> Seq<Seq<char>> {
        let fs = Seq::<Seq<char>>::empty();
        let fs = match self.page {
            Some(p) => fs.push(json_string("page"@) + seq![':'] + spec_decimal(p as nat)),
            None => fs,
        };
        let fs = match self.page_size {
            Some(p) => fs.push(json_string("page_size"@) + seq![':'] + spec_decimal(p as nat)),
            None => fs,
        };
        fs
    }

    /// The parameters as a JSON object.
    pub open spec fn spec_json(&self) -> Seq<char> {
        json_object(self.spec_fields())
    }

    /// Render the parameters as a JSON object.
    pub fn to_json(&self) -> (r: String)
        ensures
            r@ == self.spec_json(),
    {
        let mut fields: Vec<String> = Vec::new();
        if let Some(p) = self.page {
            fields.push(u32_field("page", p));
        }
        if let Some(p) = self.page_size {
            fields.push(u32_field("page_size", p));
        }
        proof {
            assert(views_of(fields@) =~= self.spec_fields());
        }
        json_object_exec(&fields)
    }
}

/// Parameters for filtering by entity.
#[derive(Debug, Clone)]
pub struct EntityFilterParams {
    pub entity_id: Option<String>,
    pub entity_name: Option<String>,
    pub cik: Option<String>,
}

impl EntityFilterParams {
    /// The rendered fields, in declaration order; an absent field is omitted
    /// entirely, never rendered as null.
    pub open spec fn spec_fields(&self) -> Seq<Seq<char>> {
        let fs = Seq::<Seq<char>>::empty();
        let fs = match self.entity_id {
            Some(v) => fs.push(json_string("entity_id"@) + seq![':'] + json_string(v@)),
            None => fs,
        };
        let fs = match self.entity_name {
            Some(v) => fs.push(json_string("entity_name"@) + seq![':'] + json_string(v@)),
            None => fs,
        };
        let fs = match self.cik {
            Some(v) => fs.push(json_string("cik"@) + seq![':'] + json_string(v@)),
            None => fs,
        };
        fs
    }

    /// The parameters as a JSON object.
    pub open spec fn spec_json(&self) -> Seq<char> {
        json_object(self.spec_fields())
    }

    /// Render the parameters as a JSON object.
    pub fn to_json(&self) -> (r: String)
        ensures
            r@ == self.spec_json(),
    {
        let mut fields: Vec<String> = Vec::new();
        if let Some(v) = &self.entity_id {
            fields.push(string_field("entity_id", v.as_str()));
        }
        if let Some(v) = &self.entity_name {
            fields.push(string_field("entity_name", v.as_str()));
        }
        if let Some(v) = &self.cik {
            fields.push(string_field("cik", v.as_str()));
        }
        proof {
            assert(views_of(fields@) =~= self.spec_fields());
        }
        json_object_exec(&fields)
    }
}

/// Search request parameters. The taxonomy is required; every other filter is
/// optional and omitted from the request body when absent.
#[derive(Debug, Clone)]
pub struct SearchParams {
    pub taxonomy: String,
    pub concept_name: Option<String>,
    pub entity_id: Option<String>,
    pub fiscal_year: Option<u32>,
    pub fiscal_period: Option<String>,
    pub dimension_name: Option<String>,
    pub member_name: Option<String>,
    pub text_search: Option<String>,
    pub value_greater_than: Option<JsonNumber>,
    pub value_less_than: Option<JsonNumber>,
}

impl SearchParams {
    /// The rendered fields, in declaration order; an absent field is omitted
    /// entirely, never rendered as null.
    pub open spec fn spec_fields(&self) -> Seq<Seq<char>> {
        let fs = Seq::<Seq<char>>::empty();
        let fs = fs.push(json_string("taxonomy"@) + seq![':'] + json_string(self.taxonomy@));
        let fs = match self.concept_name {
            Some(v) => fs.push(json_string("concept_name"@) + seq![':'] + json_string(v@)),
            None => fs,
        };
        let fs = match self.entity_id {
            Some(v) => fs.push(json_string("entity_id"@) + seq![':'] + json_string(v@)),
            None => fs,
        };
        let fs = match self.fiscal_year {
            Some(v) => fs.push(json_string("fiscal_year"@) + seq![':'] + spec_decimal(v as nat)),
            None => fs,
        };
        let fs = match self.fiscal_period {
            Some(v) => fs.push(json_string("fiscal_period"@) + seq![':'] + json_string(v@)),
            None => fs,
        };
        let fs = match self.dimension_name {
            Some(v) => fs.push(json_string("dimension_name"@) + seq![':'] + json_string(v@)),
            None => fs,
        };
        let fs = match self.member_name {
            Some(v) => fs.push(json_string("member_name"@) + seq![':'] + json_string(v@)),
            None => fs,
        };
        let fs = match self.text_search {
            Some(v) => fs.push(json_string("text_search"@) + seq![':'] + json_string(v@)),
            None => fs,
        };
        let fs = match self.value_greater_than {
            Some(v) => fs.push(json_string("value_greater_than"@) + seq![':'] + v@),
            None => fs,
        };
        let fs = match self.value_less_than {
            Some(v) => fs.push(json_string("value_less_than"@) + seq![':'] + v@),
            None => fs,
        };
        fs
    }

    /// The parameters as a JSON object: the POST body of a search request.
    pub open spec fn spec_json(&self) -> Seq<char> {
        json_object(self.spec_fields())
    }

    /// Render the parameters as the JSON body of a search request.
    #[verifier::rlimit(50)]
    pub fn to_json(&self) -> (r: String)
        ensures
            r@ == self.spec_json(),
    {
        let mut fields: Vec<String> = Vec::new();
        fields.push(string_field("taxonomy", self.taxonomy.as_str()));
        if let Some(v) = &self.concept_name {
            fields.push(string_field("concept_name", v.as_str()));
        }
        if let Some(v) = &self.entity_id {
            fields.push(string_field("entity_id", v.as_str()));
        }
        if let Some(v) = self.fiscal_year {
            fields.push(u32_field("fiscal_year", v));
        }
        if let Some(v) = &self.fiscal_period {
            fields.push(string_field("fiscal_period", v.as_str()));
        }
        if let Some(v) = &self.dimension_name {
            fields.push(string_field("dimension_name", v.as_str()));
        }
        if let Some(v) = &self.member_name {
            fields.push(string_field("member_name", v.as_str()));
        }
        if let Some(v) = &self.text_search {
            fields.push(string_field("text_search", v.as_str()));
        }
        if let Some(v) = &self.value_greater_than {
            fields.push(number_field("value_greater_than", v));
        }
        if let Some(v) = &self.value_less_than {
            fields.push(number_field("value_less_than", v));
        }
        proof {
            assert(views_of(fields@) =~= self.spec_fields());
        }
        json_object_exec(&fields)
    }
}

/// The uniform response envelope that the API wraps payloads in.
///
/// The payload field is optional: the API may report logical failure inside a
/// success status by leaving `data` absent.
#[derive(Debug)]
pub struct ApiResponse<T> {
    pub status: String,
    pub message: Option<String>,
    pub data: Option<T>,
    pub errors: Option<Vec<String>>,
}

/// The authentication header attached to every request.
#[derive(Debug, Clone)]
pub struct AuthHeader {
    pub api_key: String,
}

} // verus!
