use mv64e_grz_dto::{
    FileType, Gender, Json, LibraryType, Metadata, NoScopeJustification, JsonNumber, ReadOrder,
    Record, ReferenceGenome, Relation, SampleConservation, SerdeError, WireName,
};

const FILE_ENTRY: &str = r#"{"fileType": "fastq", "readOrder": "R1", "filePath": "patient_001/patient_001_dna.fastq.gz", "fileChecksum": "2f3e", "fileSizeInBytes": 1024, "checksumType": "sha256", "readLength": 150, "flowcellId": "FC1", "laneId": "L001"}"#;

fn document(research_consents: &str, reference_genome: &str, extra_donor_member: &str) -> String {
    format!(
        r#"{{
  "donors": [
    {{
      "donorPseudonym": "index",
      "gender": "female",
      "relation": "index",{extra_donor_member}
      "mvConsent": {{
        "version": "Patient Info TE Consent MVGenomSeq vers01",
        "presentationDate": "2024-01-01",
        "scope": [{{"date": "2024-01-02", "domain": "mvSequencing", "type": "permit"}}]
      }},
      "researchConsents": {research_consents},
      "labData": [
        {{
          "barcode": "na",
          "enrichmentKitDescription": "kit v2",
          "enrichmentKitManufacturer": "NEB",
          "fragmentationMethod": "none",
          "kitManufacturer": "Illumina",
          "kitName": "NovaSeq kit",
          "labDataName": "Blut DNA normal",
          "libraryPrepKit": "prep v1",
          "libraryPrepKitManufacturer": "Illumina",
          "libraryType": "panel_lr",
          "sampleConservation": "fresh-tissue",
          "sampleDate": "2023-12-24",
          "sequenceSubtype": "germline",
          "sequenceType": "dna",
          "sequencerManufacturer": "Illumina",
          "sequencerModel": "NovaSeq 6000",
          "sequencingLayout": "paired-end",
          "tissueOntology": {{"name": "BTO", "version": "2021"}},
          "tissueTypeId": "BTO:0000089",
          "tissueTypeName": "blood",
          "tumorCellCount": [{{"count": 42.5, "method": "pathology"}}],
          "sequenceData": {{
            "bioinformaticsPipelineName": "pipe",
            "bioinformaticsPipelineVersion": "1.0",
            "callerUsed": [{{"name": "GATK", "version": "4.2"}}],
            "files": [{FILE_ENTRY}],
            "meanDepthOfCoverage": 30.5,
            "minCoverage": 20,
            "nonCodingVariants": true,
            "percentBasesAboveQualityThreshold": {{"minimumQuality": 30, "percent": 85.25}},
            "referenceGenome": "{reference_genome}",
            "targetedRegionsAboveMinCoverage": 0.95
          }}
        }}
      ]
    }}
  ],
  "submission": {{
    "clinicalDataNodeId": "KDKXXX001",
    "coverageType": "GKV",
    "diseaseType": "rare",
    "genomicDataCenterId": "GRZXXX001",
    "genomicStudySubtype": "germline-only",
    "genomicStudyType": "single",
    "labName": "Lab",
    "localCaseId": "case-1",
    "submissionDate": "2024-02-01",
    "submissionType": "initial",
    "submitterId": "260840108",
    "tanG": "aaaaaaaaaaaaaaaaaaaaaaaaaaaaaaaaaaaaaaaaaaaaaaaaaaaaaaaaaaaaaaaa"
  }}
}}"#
    )
}

fn example() -> String {
    document("[]", "GRCh38", "")
}

fn decode(text: &str) -> Result<Metadata, SerdeError> {
    Metadata::from_str(text)
}

#[test]
fn should_deserialize_json_string() {
    let data = Metadata::from_str(&example());
    assert!(data.is_ok())
}

#[test]
fn decodes_fields_under_the_wire_mapping() {
    let m = decode(&example()).ok().unwrap();
    assert_eq!(m.donors.len(), 1);
    let d = &m.donors[0];
    assert_eq!(d.donor_pseudonym, "index");
    assert!(d.gender == Gender::Female);
    assert!(d.relation == Relation::Index);
    assert_eq!(d.mv_consent.scope.len(), 1);
    assert_eq!(d.mv_consent.presentation_date.as_deref(), Some("2024-01-01"));
    let lab = &d.lab_data[0];
    assert!(lab.library_type == LibraryType::PanelLr);
    assert!(lab.sample_conservation == SampleConservation::FreshTissue);
    let sd = lab.sequence_data.as_ref().unwrap();
    assert!(sd.reference_genome == ReferenceGenome::GrCh38);
    assert!(sd.non_coding_variants);
    assert!(matches!(&sd.min_coverage, JsonNumber::PosInt(20)));
    assert!(matches!(&sd.mean_depth_of_coverage, JsonNumber::Float(s) if s == "30.5"));
    let f = &sd.files[0];
    assert!(f.file_type == FileType::Fastq);
    assert!(f.read_order == Some(ReadOrder::R1));
    assert_eq!(f.read_length, Some(150));
    assert_eq!(f.flowcell_id.as_deref(), Some("FC1"));
    assert_eq!(m.submission.tan_g.len(), 64);
}

#[test]
fn scenario_round_trip_of_one_donor() {
    let m = decode(&example()).ok().unwrap();
    let text = m.to_json_string();
    let again = decode(&text).ok().unwrap();
    assert_eq!(again.to_json_string(), text);
    assert_eq!(again.donors[0].lab_data[0].sequence_data.as_ref().unwrap().files[0].file_path,
        "patient_001/patient_001_dna.fastq.gz");
}

#[test]
fn encode_leaves_out_absent_optionals() {
    let text = document("[]", "GRCh38", "").replace(r#""readLength": 150, "#, "");
    let m = decode(&text).ok().unwrap();
    let out = m.to_json_string();
    assert!(!out.contains("readLength"));
    assert!(out.contains("\"readOrder\":\"R1\""));
    assert!(!out.contains("null"));
}

#[test]
fn scenario_research_consent_without_scope() {
    let rc = r#"[{"noScopeJustification": "patient refuses to sign consent", "presentationDate": "2024-01-01"}]"#;
    let m = decode(&document(rc, "GRCh38", "")).ok().unwrap();
    let c = &m.donors[0].research_consents[0];
    assert!(c.no_scope_justification == Some(NoScopeJustification::PatientRefusesToSignConsent));
    assert!(c.scope.is_none());
    assert!(c.schema_version.is_none());
}

#[test]
fn research_consent_scope_is_kept_as_it_stands() {
    let rc = r#"[{"presentationDate": "2024-01-01", "schemaVersion": "2025.0.1", "scope": {"resourceType": "Consent", "status": null, "provision": [1, true, {"x": -3}]}}]"#;
    let m = decode(&document(rc, "GRCh38", "")).ok().unwrap();
    let scope = m.donors[0].research_consents[0].scope.as_ref().unwrap();
    assert_eq!(scope.len(), 3);
    assert!(scope.iter().any(|(k, v)| k == "status" && matches!(v, Json::Null)));
    let text = m.to_json_string();
    assert!(text.contains("\"status\":null"));
    assert!(text.contains("\"provision\":[1,true,{\"x\":-3}]"));
}

#[test]
fn scenario_reference_genome_wrong_case_fails() {
    assert!(decode(&document("[]", "grch38", "")).is_err());
}

#[test]
fn unknown_member_fails_at_any_level() {
    assert!(decode(&document("[]", "GRCh38", r#" "nickname": "x","#)).is_err());
    let top = example().replacen('{', r#"{"extra": 1, "#, 1);
    assert!(decode(&top).is_err());
    let deep = example().replace(r#""laneId": "L001""#, r#""laneId": "L001", "lane": "2""#);
    assert!(decode(&deep).is_err());
}

#[test]
fn missing_required_member_fails() {
    let text = example().replace(r#""labName": "Lab","#, "");
    let e = decode(&text).err().unwrap();
    assert!(e.to_string().starts_with("Metadata Serde Error: "));
    assert!(e.to_string().contains("labName"));
}

#[test]
fn missing_optional_member_is_absent() {
    let text = example().replace(r#""presentationDate": "2024-01-01","#, "");
    let m = decode(&text).ok().unwrap();
    assert!(m.donors[0].mv_consent.presentation_date.is_none());
}

#[test]
fn enum_outside_closed_set_fails() {
    let text = example().replace(r#""gender": "female""#, r#""gender": "man""#);
    assert!(decode(&text).is_err());
}

#[test]
fn wrong_type_fails() {
    let text = example().replace(r#""readLength": 150"#, r#""readLength": 150.5"#);
    assert!(decode(&text).is_err());
    let text = example().replace(r#""nonCodingVariants": true"#, r#""nonCodingVariants": "yes""#);
    assert!(decode(&text).is_err());
}

#[test]
fn malformed_text_fails() {
    assert!(decode("{\"donors\": [").is_err());
    assert!(decode("").is_err());
}

#[test]
fn enum_spellings_are_exact() {
    assert_eq!(LibraryType::WgsLr.to_wire(), "wgs_lr");
    assert_eq!(SampleConservation::CryoFrozen.to_wire(), "cryo-frozen");
    assert_eq!(ReferenceGenome::GrCh37.to_wire(), "GRCh37");
    assert!(ReferenceGenome::from_wire("grch37").is_none());
    assert!(Gender::from_wire("unknown") == Some(Gender::Unknown));
    assert!(NoScopeJustification::from_wire("patient unable to consent")
        == Some(NoScopeJustification::PatientUnableToConsent));
}

#[test]
fn record_to_json_and_back() {
    let m = decode(&example()).ok().unwrap();
    let j = m.donors[0].to_json();
    let d = mv64e_grz_dto::Donor::from_json(&j).ok().unwrap();
    assert_eq!(d.donor_pseudonym, "index");
    assert!(d.gender == Gender::Female);
}
