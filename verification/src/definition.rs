//! Identity and metadata of a lint.

use vstd::prelude::*;

verus! {

/// Abstract value of a [`LintDefinition`]: the texts of its name,
/// description and optional citation.
pub ghost struct LintDefinitionView {
    /// Name of the lint.
    pub name: Seq<char>,
    /// Human-readable description.
    pub description: Seq<char>,
    /// Optional normative citation.
    pub citation: Option<Seq<char>>,
}

/// Definition of a lint: name, description, citation (optional).
///
/// The name identifies the lint and should be unique within a registry;
/// registries do not enforce uniqueness, so callers composing catalogs must
/// avoid collisions themselves.
#[derive(Debug)]
pub struct LintDefinition {
    name: String,
    description: String,
    citation: Option<String>,
}

impl View for LintDefinition {
    type V = LintDefinitionView;

    closed spec fn view(&self) -> LintDefinitionView {
        LintDefinitionView {
            name: self.name@,
            description: self.description@,
            citation: match self.citation {
                Some(citation) => Some(citation@),
                None => None,
            },
        }
    }
}

/// Holds when `definition` carries exactly the given name, description and
/// citation texts.
pub open spec fn definition_is(
    definition: LintDefinition,
    name: Seq<char>,
    description: Seq<char>,
    citation: Option<Seq<char>>,
) -> bool {
    definition@ == (LintDefinitionView { name, description, citation })
}

impl Clone for LintDefinition {
    /// Cloning a definition keeps its value.
    fn clone(&self) -> (cloned: Self)
        ensures
            cloned == *self,
    {
        Self {
            name: self.name.clone(),
            description: self.description.clone(),
            citation: match &self.citation {
                Some(citation) => Some(citation.clone()),
                None => None,
            },
        }
    }
}

impl LintDefinition {
    /// Build a new lint definition, without citation, from name and
    /// description.
    pub fn new(name: &str, description: &str) -> (definition: Self)
        ensures
            definition@.name == name@,
            definition@.description == description@,
            definition@.citation is None,
    {
        Self { name: name.to_owned(), description: description.to_owned(), citation: None }
    }

    /// Lint name (identifier). Should be unique.
    pub fn name(&self) -> (name: &str)
        ensures
            name@ == self@.name,
    {
        self.name.as_str()
    }

    /// Lint description.
    pub fn description(&self) -> (description: &str)
        ensures
            description@ == self@.description,
    {
        self.description.as_str()
    }

    /// Lint citation (precise reference), for example "RFC5280: 4.2.1.1".
    pub fn citation(&self) -> (citation: Option<&str>)
        ensures
            match citation {
                Some(text) => self@.citation == Some(text@),
                None => self@.citation is None,
            },
    {
        match &self.citation {
            Some(citation) => Some(citation.as_str()),
            None => None,
        }
    }

    /// Add `citation` to the current definition.
    pub fn with_citation(self, citation: &str) -> (definition: Self)
        ensures
            definition@.name == self@.name,
            definition@.description == self@.description,
            definition@.citation == Some(citation@),
    {
        Self { citation: Some(citation.to_owned()), ..self }
    }
}

} // verus!
