//! The projects endpoints: one project by id, and the paged listing.

use vstd::prelude::*;
use vstd::string::*;

use crate::client::Method;
use crate::endpoint::{no_body, no_headers, Endpoint};
use crate::error::{BodyError, BuilderError};
use crate::params::{spec_opt_param, spec_u64_string, u64_string, ParamValue, QueryParams};
use crate::sort_by::SortBy;

verus! {

/// The sortable fields of the projects listing.
#[derive(Debug, Clone, Copy, PartialEq, Eq)]
pub enum ProjectsSortBy {
    Name,
    Color,
    Archived,
}

impl Default for ProjectsSortBy {
    fn default() -> (r: Self)
        ensures
            r == ProjectsSortBy::Name,
    {
        ProjectsSortBy::Name
    }
}

impl ProjectsSortBy {
    /// The field's query-string name.
    pub open spec fn spec_as_str(self) -> Seq<char> {
        match self {
            ProjectsSortBy::Name => "name"@,
            ProjectsSortBy::Color => "color"@,
            ProjectsSortBy::Archived => "archived"@,
        }
    }

    /// The field's query-string name.
    pub fn as_str(self) -> (r: &'static str)
        ensures
            r@ == self.spec_as_str(),
    {
        match self {
            ProjectsSortBy::Name => "name",
            ProjectsSortBy::Color => "color",
            ProjectsSortBy::Archived => "archived",
        }
    }
}

impl ParamValue for ProjectsSortBy {
    open spec fn value_spec(&self) -> Seq<char> {
        self.spec_as_str()
    }

    fn as_value(&self) -> (r: String) {
        String::from_str(self.as_str())
    }
}

/// The expandable associations of a project.
#[derive(Debug, Clone, Copy, PartialEq, Eq)]
pub enum ProjectsExpand {
    Tags,
}

impl ProjectsExpand {
    /// The association's query-string name.
    pub open spec fn spec_as_str(self) -> Seq<char> {
        match self {
            ProjectsExpand::Tags => "tags"@,
        }
    }

    /// The association's query-string name.
    pub fn as_str(self) -> (r: &'static str)
        ensures
            r@ == self.spec_as_str(),
    {
        match self {
            ProjectsExpand::Tags => "tags",
        }
    }
}

impl ParamValue for ProjectsExpand {
    open spec fn value_spec(&self) -> Seq<char> {
        self.spec_as_str()
    }

    fn as_value(&self) -> (r: String) {
        String::from_str(self.as_str())
    }
}

/// The paged listing of projects.
#[derive(Debug)]
pub struct Projects {
    pub sort: Option<SortBy<ProjectsSortBy>>,
    pub page: Option<u64>,
    pub archived: Option<bool>,
    pub expand: Option<ProjectsExpand>,
    pub name: Option<String>,
}

/// A builder for [`Projects`]; every field is optional.
#[derive(Debug)]
pub struct ProjectsBuilder {
    pub sort: Option<SortBy<ProjectsSortBy>>,
    pub page: Option<u64>,
    pub archived: Option<bool>,
    pub expand: Option<ProjectsExpand>,
    pub name: Option<String>,
}

impl Projects {
    /// Create a builder for the endpoint.
    pub fn builder() -> (r: ProjectsBuilder)
        ensures
            r == (ProjectsBuilder {
                sort: None,
                page: None,
                archived: None,
                expand: None,
                name: None
            }),
    {
        ProjectsBuilder { sort: None, page: None, archived: None, expand: None, name: None }
    }
}

impl ProjectsBuilder {
    /// Sort the listing.
    pub fn sort(self, sort: SortBy<ProjectsSortBy>) -> (r: Self)
        ensures
            r == (ProjectsBuilder { sort: Some(sort), ..self }),
    {
        ProjectsBuilder { sort: Some(sort), ..self }
    }

    /// Ask for one page.
    pub fn page(self, page: u64) -> (r: Self)
        ensures
            r == (ProjectsBuilder { page: Some(page), ..self }),
    {
        ProjectsBuilder { page: Some(page), ..self }
    }

    /// Filter by archived state.
    pub fn archived(self, archived: bool) -> (r: Self)
        ensures
            r == (ProjectsBuilder { archived: Some(archived), ..self }),
    {
        ProjectsBuilder { archived: Some(archived), ..self }
    }

    /// Expand an association.
    pub fn expand(self, expand: ProjectsExpand) -> (r: Self)
        ensures
            r == (ProjectsBuilder { expand: Some(expand), ..self }),
    {
        ProjectsBuilder { expand: Some(expand), ..self }
    }

    /// Filter by name.
    pub fn name(self, name: &str) -> (r: Self)
        ensures
            r matches (ProjectsBuilder { name: Some(n), .. }) && n@ == name@ && r == (ProjectsBuilder {
                name: r.name,
                ..self
            }),
    {
        ProjectsBuilder { name: Some(String::from_str(name)), ..self }
    }

    /// Build the endpoint; nothing is required, so this always succeeds.
    pub fn build(self) -> (r: Result<Projects, BuilderError>)
        ensures
            r matches Ok(res) && res == (Projects {
                sort: self.sort,
                page: self.page,
                archived: self.archived,
                expand: self.expand,
                name: self.name
            }),
    {
        Ok(
            Projects {
                sort: self.sort,
                page: self.page,
                archived: self.archived,
                expand: self.expand,
                name: self.name
            },
        )
    }
}

impl Endpoint for Projects {
    open spec fn url_spec(&self) -> Seq<char> {
        "projects"@
    }

    fn url(&self) -> (r: String) {
        String::from_str("projects")
    }

    open spec fn method_spec(&self) -> Method {
        Method::Get
    }

    fn method(&self) -> (r: Method) {
        Method::Get
    }

    fn body(&self) -> (r: Result<Option<Vec<u8>>, BodyError>)
        ensures
            r matches Ok(b) && b is None,
    {
        no_body()
    }

    fn headers(&self) -> (r: Vec<(String, String)>) {
        no_headers()
    }

    open spec fn parameters_spec(&self) -> Seq<(Seq<char>, Seq<char>)> {
        spec_opt_param("sort"@, self.sort) + spec_opt_param("page"@, self.page) + spec_opt_param("archived"@, self.archived) + spec_opt_param("expand"@, self.expand) + spec_opt_param("name"@, self.name)
    }

    fn parameters(&self) -> (r: QueryParams) {
        let mut params = QueryParams::new();
        params.push_opt("sort", &self.sort);
        params.push_opt("page", &self.page);
        params.push_opt("archived", &self.archived);
        params.push_opt("expand", &self.expand);
        params.push_opt("name", &self.name);
        proof {
            assert(params@ =~= self.parameters_spec());
        }
        params
    }
}

/// One of the projects, by id.
#[derive(Debug)]
pub struct Project {
    pub id: usize,
    pub expand: Option<ProjectsExpand>,
}

/// A builder for [`Project`]; the id is required.
#[derive(Debug)]
pub struct ProjectBuilder {
    pub id: Option<usize>,
    pub expand: Option<ProjectsExpand>,
}

impl Project {
    /// Create a builder for the endpoint.
    pub fn builder() -> (r: ProjectBuilder)
        ensures
            r == (ProjectBuilder { id: None, expand: None }),
    {
        ProjectBuilder { id: None, expand: None }
    }
}

impl ProjectBuilder {
    /// Pick the item.
    pub fn id(self, id: usize) -> (r: Self)
        ensures
            r == (ProjectBuilder { id: Some(id), ..self }),
    {
        ProjectBuilder { id: Some(id), ..self }
    }

    /// Expand an association.
    pub fn expand(self, expand: Option<ProjectsExpand>) -> (r: Self)
        ensures
            r == (ProjectBuilder { expand, ..self }),
    {
        ProjectBuilder { expand, ..self }
    }

    /// Build the endpoint; fails when the id was never set.
    pub fn build(self) -> (r: Result<Project, BuilderError>)
        ensures
            match self.id {
                Some(id) => r matches Ok(res) && res == (Project { id, expand: self.expand }),
                None => r matches Err(e) && e matches BuilderError::UninitializedField(f) && f@
                    == "id"@,
            },
    {
        match self.id {
            Some(id) => Ok(Project { id, expand: self.expand }),
            None => Err(BuilderError::UninitializedField("id")),
        }
    }
}

impl Endpoint for Project {
    open spec fn url_spec(&self) -> Seq<char> {
        "projects/"@ + spec_u64_string(self.id as int)
    }

    fn url(&self) -> (r: String) {
        let mut s = String::from_str("projects/");
        let digits = u64_string(self.id as u64);
        s.append(digits.as_str());
        s
    }

    open spec fn method_spec(&self) -> Method {
        Method::Get
    }

    fn method(&self) -> (r: Method) {
        Method::Get
    }

    fn body(&self) -> (r: Result<Option<Vec<u8>>, BodyError>)
        ensures
            r matches Ok(b) && b is None,
    {
        no_body()
    }

    fn headers(&self) -> (r: Vec<(String, String)>) {
        no_headers()
    }

    open spec fn parameters_spec(&self) -> Seq<(Seq<char>, Seq<char>)> {
        spec_opt_param("expand"@, self.expand)
    }

    fn parameters(&self) -> (r: QueryParams) {
        let mut params = QueryParams::new();
        params.push_opt("expand", &self.expand);
        proof {
            assert(params@ =~= self.parameters_spec());
        }
        params
    }
}
} // verus!
