//! Typed records for GRZ submission metadata, with a strict JSON codec.
//! The root record is `Metadata`.
mod codec;
mod json;
mod laws;
mod metadata;

pub use crate::codec::{MemberNames, Record, WireName};
pub use crate::laws::{
    lemma_metadata_round_trip, lemma_missing_member_refused, lemma_round_trip,
    lemma_unknown_member_refused, lemma_unknown_spelling_refused,
};
pub use crate::json::{parsed_json, rendered_json, Json, JsonView, JsonNumber, JsonNumberView};
pub use crate::metadata::{
    CallerUsed, ChecksumType, CoverageType, DiseaseType, Domain, Donor, EnrichmentKitManufacturer,
    File, FileType, FragmentationMethod, GenomicStudySubtype, GenomicStudyType, Gender, LabDatum,
    LibraryType, Metadata, Method, MvConsent, NoScopeJustification, PercentBasesAboveQualityThreshold,
    ReadOrder, ReferenceGenome, Relation, ResearchConsent, SampleConservation, SchemaVersion, Scope,
    SequenceData, SequenceSubtype, SequenceType, SequencingLayout, Submission, SubmissionType,
    TissueOntology, TumorCellCount, Type,
};

use crate::json::{parse_json, render_json};
use vstd::prelude::*;
use vstd::string::StringExecFns;

verus! {

/// A document that does not conform to the schema; the text says why.
pub struct SerdeError(pub String);

impl SerdeError {
    /// The description of the violation, after a fixed prefix.
    pub fn to_string(&self) -> (r: String)
        ensures
            r@ == "Metadata Serde Error: "@ + self.0@,
    {
        let mut s = "Metadata Serde Error: ".to_owned();
        s.append(self.0.as_str());
        s
    }
}

impl Metadata {
    /// Reads a `Metadata` from JSON text. It fails where the text is no
    /// well-formed document, and where the document does not conform to the
    /// schema: an unknown or missing member, a value of the wrong type, or an
    /// enumeration spelling outside its closed set.
    pub fn from_str(value: &str) -> (r: Result<Metadata, SerdeError>)
        ensures
            match parsed_json(value@) {
                Some(j) => match r {
                    Ok(m) => Metadata::decodes(j, m),
                    Err(_) => forall|m: Metadata| !Metadata::decodes(j, m),
                },
                None => r is Err,
            },
    {
        match parse_json(value) {
            Ok(j) => Metadata::from_json(&j),
            Err(e) => Err(SerdeError(e)),
        }
    }

    /// Writes the record as compact JSON text, leaving out absent optional
    /// members.
    pub fn to_json_string(&self) -> (r: String)
        ensures
            r@ == rendered_json(self.json_of()),
    {
        let j = self.to_json();
        render_json(&j)
    }
}

} // verus!
