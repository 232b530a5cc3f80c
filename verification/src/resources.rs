//! The resources endpoints: one resource by id, and the paged listing.

use vstd::prelude::*;
use vstd::string::*;

use crate::client::Method;
use crate::endpoint::{no_body, no_headers, Endpoint};
use crate::error::{BodyError, BuilderError};
use crate::paged::Pageable;
use crate::params::{spec_opt_param, spec_u64_string, u64_string, ParamValue, QueryParams};
use crate::sort_by::SortBy;

verus! {

/// The sortable fields of the resources listing.
#[derive(Debug, Clone, Copy, PartialEq, Eq)]
pub enum ResourcesSortBy {
    Name,
    Email,
    Role,
    Active,
}

impl Default for ResourcesSortBy {
    /// Resources sort by email unless told otherwise.
    fn default() -> (r: Self)
        ensures
            r == ResourcesSortBy::Email,
    {
        ResourcesSortBy::Email
    }
}

impl ResourcesSortBy {
    /// The field's query-string name.
    pub open spec fn spec_as_str(self) -> Seq<char> {
        match self {
            ResourcesSortBy::Name => "name"@,
            ResourcesSortBy::Email => "email"@,
            ResourcesSortBy::Role => "role"@,
            ResourcesSortBy::Active => "active"@,
        }
    }

    /// The field's query-string name.
    pub fn as_str(self) -> (r: &'static str)
        ensures
            r@ == self.spec_as_str(),
    {
        match self {
            ResourcesSortBy::Name => "name",
            ResourcesSortBy::Email => "email",
            ResourcesSortBy::Role => "role",
            ResourcesSortBy::Active => "active",
        }
    }
}

impl ParamValue for ResourcesSortBy {
    open spec fn value_spec(&self) -> Seq<char> {
        self.spec_as_str()
    }

    fn as_value(&self) -> (r: String) {
        String::from_str(self.as_str())
    }
}

/// The expandable associations of a resource.
#[derive(Debug, Clone, Copy, PartialEq, Eq)]
pub enum ResourcesExpand {
    CustomFieldValues,
}

impl ResourcesExpand {
    /// The association's query-string name.
    pub open spec fn spec_as_str(self) -> Seq<char> {
        match self {
            ResourcesExpand::CustomFieldValues => "custom_field_values"@,
        }
    }

    /// The association's query-string name.
    pub fn as_str(self) -> (r: &'static str)
        ensures
            r@ == self.spec_as_str(),
    {
        match self {
            ResourcesExpand::CustomFieldValues => "custom_field_values",
        }
    }
}

impl ParamValue for ResourcesExpand {
    open spec fn value_spec(&self) -> Seq<char> {
        self.spec_as_str()
    }

    fn as_value(&self) -> (r: String) {
        String::from_str(self.as_str())
    }
}

/// The paged listing of resources.
#[derive(Debug)]
pub struct Resources {
    pub sort: Option<SortBy<ResourcesSortBy>>,
    pub page: Option<u64>,
    pub name: Option<String>,
    pub active: Option<bool>,
    pub email: Option<String>,
    pub expand: Option<ResourcesExpand>,
}

/// A builder for [`Resources`]; every field is optional.
#[derive(Debug)]
pub struct ResourcesBuilder {
    pub sort: Option<SortBy<ResourcesSortBy>>,
    pub page: Option<u64>,
    pub name: Option<String>,
    pub active: Option<bool>,
    pub email: Option<String>,
    pub expand: Option<ResourcesExpand>,
}

impl Resources {
    /// Create a builder for the endpoint.
    pub fn builder() -> (r: ResourcesBuilder)
        ensures
            r == (ResourcesBuilder {
                sort: None,
                page: None,
                name: None,
                active: None,
                email: None,
                expand: None,
            }),
    {
        ResourcesBuilder { sort: None, page: None, name: None, active: None, email: None, expand: None }
    }
}

impl ResourcesBuilder {
    /// Sort the listing.
    pub fn sort(self, sort: SortBy<ResourcesSortBy>) -> (r: Self)
        ensures
            r == (ResourcesBuilder { sort: Some(sort), ..self }),
    {
        ResourcesBuilder { sort: Some(sort), ..self }
    }

    /// Ask for one page.
    pub fn page(self, page: u64) -> (r: Self)
        ensures
            r == (ResourcesBuilder { page: Some(page), ..self }),
    {
        ResourcesBuilder { page: Some(page), ..self }
    }

    /// Filter by name.
    pub fn name(self, name: &str) -> (r: Self)
        ensures
            r matches (ResourcesBuilder { name: Some(n), .. }) && n@ == name@ && r
                == (ResourcesBuilder { name: r.name, ..self }),
    {
        ResourcesBuilder { name: Some(String::from_str(name)), ..self }
    }

    /// Filter by active state.
    pub fn active(self, active: bool) -> (r: Self)
        ensures
            r == (ResourcesBuilder { active: Some(active), ..self }),
    {
        ResourcesBuilder { active: Some(active), ..self }
    }

    /// Filter by email.
    pub fn email(self, email: &str) -> (r: Self)
        ensures
            r matches (ResourcesBuilder { email: Some(n), .. }) && n@ == email@ && r
                == (ResourcesBuilder { email: r.email, ..self }),
    {
        ResourcesBuilder { email: Some(String::from_str(email)), ..self }
    }

    /// Expand an association.
    pub fn expand(self, expand: ResourcesExpand) -> (r: Self)
        ensures
            r == (ResourcesBuilder { expand: Some(expand), ..self }),
    {
        ResourcesBuilder { expand: Some(expand), ..self }
    }

    /// Build the endpoint; nothing is required, so this always succeeds.
    pub fn build(self) -> (r: Result<Resources, BuilderError>)
        ensures
            r matches Ok(res) && res == (Resources {
                sort: self.sort,
                page: self.page,
                name: self.name,
                active: self.active,
                email: self.email,
                expand: self.expand,
            }),
    {
        Ok(
            Resources {
                sort: self.sort,
                page: self.page,
                name: self.name,
                active: self.active,
                email: self.email,
                expand: self.expand,
            },
        )
    }
}

impl Endpoint for Resources {
    open spec fn url_spec(&self) -> Seq<char> {
        "resources"@
    }

    fn url(&self) -> (r: String) {
        String::from_str("resources")
    }

    open spec fn method_spec(&self) -> Method {
        Method::Get
    }

    fn method(&self) -> (r: Method) {
        Method::Get
    }

    fn body(&self) -> (r: Result<Option<Vec<u8>>, BodyError>)
        ensures
            r matches Ok(b) && b is None,
    {
        no_body()
    }

    fn headers(&self) -> (r: Vec<(String, String)>) {
        no_headers()
    }

    open spec fn parameters_spec(&self) -> Seq<(Seq<char>, Seq<char>)> {
        spec_opt_param("sort"@, self.sort) + spec_opt_param("page"@, self.page) + spec_opt_param(
            "name"@,
            self.name,
        ) + spec_opt_param("active"@, self.active) + spec_opt_param("email"@, self.email)
            + spec_opt_param("expand"@, self.expand)
    }

    fn parameters(&self) -> (r: QueryParams) {
        let mut params = QueryParams::new();
        params.push_opt("sort", &self.sort);
        params.push_opt("page", &self.page);
        params.push_opt("name", &self.name);
        params.push_opt("active", &self.active);
        params.push_opt("email", &self.email);
        params.push_opt("expand", &self.expand);
        proof {
            assert(params@ =~= self.parameters_spec());
        }
        params
    }
}

impl Pageable for Resources {

}

/// One resource by id.
#[derive(Debug)]
pub struct Resource {
    pub id: usize,
    pub expand: Option<ResourcesExpand>,
}

/// A builder for [`Resource`]; the id is required.
#[derive(Debug)]
pub struct ResourceBuilder {
    pub id: Option<usize>,
    pub expand: Option<ResourcesExpand>,
}

impl Resource {
    /// Create a builder for the endpoint.
    pub fn builder() -> (r: ResourceBuilder)
        ensures
            r == (ResourceBuilder { id: None, expand: None }),
    {
        ResourceBuilder { id: None, expand: None }
    }
}

impl ResourceBuilder {
    /// Pick the resource.
    pub fn id(self, id: usize) -> (r: Self)
        ensures
            r == (ResourceBuilder { id: Some(id), ..self }),
    {
        ResourceBuilder { id: Some(id), ..self }
    }

    /// Expand an association.
    pub fn expand(self, expand: Option<ResourcesExpand>) -> (r: Self)
        ensures
            r == (ResourceBuilder { expand, ..self }),
    {
        ResourceBuilder { expand, ..self }
    }

    /// Build the endpoint; fails when the id was never set.
    pub fn build(self) -> (r: Result<Resource, BuilderError>)
        ensures
            match self.id {
                Some(id) => r matches Ok(res) && res == (Resource { id, expand: self.expand }),
                None => r matches Err(e) && e matches BuilderError::UninitializedField(f) && f@
                    == "id"@,
            },
    {
        match self.id {
            Some(id) => Ok(Resource { id, expand: self.expand }),
            None => Err(BuilderError::UninitializedField("id")),
        }
    }
}

impl Endpoint for Resource {
    open spec fn url_spec(&self) -> Seq<char> {
        "resources/"@ + spec_u64_string(self.id as int)
    }

    fn url(&self) -> (r: String) {
        let mut s = String::from_str("resources/");
        let digits = u64_string(self.id as u64);
        s.append(digits.as_str());
        s
    }

    open spec fn method_spec(&self) -> Method {
        Method::Get
    }

    fn method(&self) -> (r: Method) {
        Method::Get
    }

    fn body(&self) -> (r: Result<Option<Vec<u8>>, BodyError>)
        ensures
            r matches Ok(b) && b is None,
    {
        no_body()
    }

    fn headers(&self) -> (r: Vec<(String, String)>) {
        no_headers()
    }

    open spec fn parameters_spec(&self) -> Seq<(Seq<char>, Seq<char>)> {
        spec_opt_param("expand"@, self.expand)
    }

    fn parameters(&self) -> (r: QueryParams) {
        let mut params = QueryParams::new();
        params.push_opt("expand", &self.expand);
        proof {
            assert(params@ =~= self.parameters_spec());
        }
        params
    }
}

} // verus!
