//! The booking-tag endpoints: one tag by id, and the paged listing.

use vstd::prelude::*;
use vstd::string::*;

use crate::client::Method;
use crate::endpoint::{no_body, no_headers, Endpoint};
use crate::error::{BodyError, BuilderError};
use crate::paged::Pageable;
use crate::params::{spec_opt_param, spec_u64_string, u64_string, ParamValue, QueryParams};
use crate::sort_by::SortBy;

verus! {

/// The sortable fields of the booking-tags listing.
#[derive(Debug, Clone, Copy, PartialEq, Eq)]
pub enum BookingTagsSortBy {
    Id,
    Name,
    Icon,
    Color,
}

impl Default for BookingTagsSortBy {
    fn default() -> (r: Self)
        ensures
            r == BookingTagsSortBy::Id,
    {
        BookingTagsSortBy::Id
    }
}

impl BookingTagsSortBy {
    /// The field's query-string name.
    pub open spec fn spec_as_str(self) -> Seq<char> {
        match self {
            BookingTagsSortBy::Id => "id"@,
            BookingTagsSortBy::Name => "name"@,
            BookingTagsSortBy::Icon => "icon"@,
            BookingTagsSortBy::Color => "color"@,
        }
    }

    /// The field's query-string name.
    pub fn as_str(self) -> (r: &'static str)
        ensures
            r@ == self.spec_as_str(),
    {
        match self {
            BookingTagsSortBy::Id => "id",
            BookingTagsSortBy::Name => "name",
            BookingTagsSortBy::Icon => "icon",
            BookingTagsSortBy::Color => "color",
        }
    }
}

impl ParamValue for BookingTagsSortBy {
    open spec fn value_spec(&self) -> Seq<char> {
        self.spec_as_str()
    }

    fn as_value(&self) -> (r: String) {
        String::from_str(self.as_str())
    }
}

/// The paged listing of booking tags.
#[derive(Debug)]
pub struct BookingTags {
    pub sort: Option<SortBy<BookingTagsSortBy>>,
    pub page: Option<u64>,
    pub archived: Option<bool>,
    pub name: Option<String>,
}

/// A builder for [`BookingTags`]; every field is optional.
#[derive(Debug)]
pub struct BookingTagsBuilder {
    pub sort: Option<SortBy<BookingTagsSortBy>>,
    pub page: Option<u64>,
    pub archived: Option<bool>,
    pub name: Option<String>,
}

impl BookingTags {
    /// Create a builder for the endpoint.
    pub fn builder() -> (r: BookingTagsBuilder)
        ensures
            r == (BookingTagsBuilder {
                sort: None,
                page: None,
                archived: None,
                name: None
            }),
    {
        BookingTagsBuilder { sort: None, page: None, archived: None, name: None }
    }
}

impl BookingTagsBuilder {
    /// Sort the listing.
    pub fn sort(self, sort: SortBy<BookingTagsSortBy>) -> (r: Self)
        ensures
            r == (BookingTagsBuilder { sort: Some(sort), ..self }),
    {
        BookingTagsBuilder { sort: Some(sort), ..self }
    }

    /// Ask for one page.
    pub fn page(self, page: u64) -> (r: Self)
        ensures
            r == (BookingTagsBuilder { page: Some(page), ..self }),
    {
        BookingTagsBuilder { page: Some(page), ..self }
    }

    /// Filter by archived state.
    pub fn archived(self, archived: bool) -> (r: Self)
        ensures
            r == (BookingTagsBuilder { archived: Some(archived), ..self }),
    {
        BookingTagsBuilder { archived: Some(archived), ..self }
    }

    /// Filter by name.
    pub fn name(self, name: &str) -> (r: Self)
        ensures
            r matches (BookingTagsBuilder { name: Some(n), .. }) && n@ == name@ && r == (BookingTagsBuilder {
                name: r.name,
                ..self
            }),
    {
        BookingTagsBuilder { name: Some(String::from_str(name)), ..self }
    }

    /// Build the endpoint; nothing is required, so this always succeeds.
    pub fn build(self) -> (r: Result<BookingTags, BuilderError>)
        ensures
            r matches Ok(res) && res == (BookingTags {
                sort: self.sort,
                page: self.page,
                archived: self.archived,
                name: self.name
            }),
    {
        Ok(
            BookingTags {
                sort: self.sort,
                page: self.page,
                archived: self.archived,
                name: self.name
            },
        )
    }
}

impl Endpoint for BookingTags {
    open spec fn url_spec(&self) -> Seq<char> {
        "booking-tags"@
    }

    fn url(&self) -> (r: String) {
        String::from_str("booking-tags")
    }

    open spec fn method_spec(&self) -> Method {
        Method::Get
    }

    fn method(&self) -> (r: Method) {
        Method::Get
    }

    fn body(&self) -> (r: Result<Option<Vec<u8>>, BodyError>)
        ensures
            r matches Ok(b) && b is None,
    {
        no_body()
    }

    fn headers(&self) -> (r: Vec<(String, String)>) {
        no_headers()
    }

    open spec fn parameters_spec(&self) -> Seq<(Seq<char>, Seq<char>)> {
        spec_opt_param("sort"@, self.sort) + spec_opt_param("page"@, self.page) + spec_opt_param("archived"@, self.archived) + spec_opt_param("name"@, self.name)
    }

    fn parameters(&self) -> (r: QueryParams) {
        let mut params = QueryParams::new();
        params.push_opt("sort", &self.sort);
        params.push_opt("page", &self.page);
        params.push_opt("archived", &self.archived);
        params.push_opt("name", &self.name);
        proof {
            assert(params@ =~= self.parameters_spec());
        }
        params
    }
}

impl Pageable for BookingTags {

}

/// One of the booking tags, by id.
#[derive(Debug)]
pub struct BookingTag {
    pub id: usize,
}

/// A builder for [`BookingTag`]; the id is required.
#[derive(Debug)]
pub struct BookingTagBuilder {
    pub id: Option<usize>,
}

impl BookingTag {
    /// Create a builder for the endpoint.
    pub fn builder() -> (r: BookingTagBuilder)
        ensures
            r == (BookingTagBuilder { id: None }),
    {
        BookingTagBuilder { id: None }
    }
}

impl BookingTagBuilder {
    /// Pick the item.
    pub fn id(self, id: usize) -> (r: Self)
        ensures
            r == (BookingTagBuilder { id: Some(id), ..self }),
    {
        BookingTagBuilder { id: Some(id), ..self }
    }

    /// Build the endpoint; fails when the id was never set.
    pub fn build(self) -> (r: Result<BookingTag, BuilderError>)
        ensures
            match self.id {
                Some(id) => r matches Ok(res) && res == (BookingTag { id }),
                None => r matches Err(e) && e matches BuilderError::UninitializedField(f) && f@
                    == "id"@,
            },
    {
        match self.id {
            Some(id) => Ok(BookingTag { id }),
            None => Err(BuilderError::UninitializedField("id")),
        }
    }
}

impl Endpoint for BookingTag {
    open spec fn url_spec(&self) -> Seq<char> {
        "booking-tags/"@ + spec_u64_string(self.id as int)
    }

    fn url(&self) -> (r: String) {
        let mut s = String::from_str("booking-tags/");
        let digits = u64_string(self.id as u64);
        s.append(digits.as_str());
        s
    }

    open spec fn method_spec(&self) -> Method {
        Method::Get
    }

    fn method(&self) -> (r: Method) {
        Method::Get
    }

    fn body(&self) -> (r: Result<Option<Vec<u8>>, BodyError>)
        ensures
            r matches Ok(b) && b is None,
    {
        no_body()
    }

    fn headers(&self) -> (r: Vec<(String, String)>) {
        no_headers()
    }

    open spec fn parameters_spec(&self) -> Seq<(Seq<char>, Seq<char>)> {
        Seq::empty()
    }

    fn parameters(&self) -> (r: QueryParams) {
        QueryParams::new()
    }
}
} // verus!
