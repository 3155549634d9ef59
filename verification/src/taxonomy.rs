use vstd::prelude::*;
use crate::json::JsonNumber;

verus! {

/// A named classification scheme.
#[derive(Debug, Clone)]
pub struct Taxonomy {
    pub name: String,
    pub description: String,
    pub version: String,
    pub documentation_url: Option<String>,
}

/// A single reportable element defined within a taxonomy.
#[derive(Debug, Clone)]
pub struct Concept {
    pub name: String,
    pub label: String,
    pub description: Option<String>,
    pub taxonomy: String,
    pub concept_type: String,
    pub period_type: Option<String>,
    pub balance: Option<String>,
    pub standard_label: Option<String>,
    pub documentation: Option<String>,
    pub is_abstract: Option<bool>,
    pub is_nillable: Option<bool>,
    pub references: Option<Vec<Reference>>,
    pub dimensions: Option<Vec<ConceptDimension>>,
}

/// A reference attached to a concept.
#[derive(Debug, Clone)]
pub struct Reference {
    pub name: String,
    pub value: String,
}

/// A dimension attached to a concept, with its member names.
#[derive(Debug, Clone)]
pub struct ConceptDimension {
    pub dimension_name: String,
    pub members: Vec<String>,
}

/// A qualifying axis of a taxonomy.
#[derive(Debug, Clone)]
pub struct Dimension {
    pub name: String,
    pub label: String,
    pub description: Option<String>,
    pub taxonomy: String,
    pub members: Option<Vec<DimensionMember>>,
}

/// One member of a dimension.
#[derive(Debug, Clone)]
pub struct DimensionMember {
    pub name: String,
    pub label: String,
    pub description: Option<String>,
}

/// A presentation hierarchy of a taxonomy.
#[derive(Debug)]
pub struct Network {
    pub id: String,
    pub name: String,
    pub short_name: Option<String>,
    pub description: Option<String>,
    pub taxonomy: String,
    pub role: String,
    pub nodes: Option<Vec<NetworkNode>>,
}

/// One node of a presentation hierarchy. Each node owns its children
/// outright; the parent link is by concept name, not by reference. The
/// presentation order is carried as the JSON number text it arrived with.
#[derive(Debug)]
pub struct NetworkNode {
    pub concept_name: String,
    pub concept_label: String,
    pub parent: Option<String>,
    pub order: Option<JsonNumber>,
    pub level: Option<u32>,
    pub preferred_label: Option<String>,
    pub children: Option<Vec<NetworkNode>>,
}

} // verus!
