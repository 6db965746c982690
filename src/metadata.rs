use vstd::prelude::*;

use crate::codec::{
    check_keys, enum_of, get_bool, get_enum, get_number, get_opt_enum, get_opt_i64, get_opt_object,
    get_opt_record, get_opt_records, get_opt_str, get_record, get_records, get_str, i64_to_json,
    keys_known, opt_enum_json, opt_enum_of, opt_i64_json, opt_members, opt_object_json,
    opt_object_of, opt_record_json, opt_record_of, opt_records_json, opt_records_of, opt_seq,
    opt_str_json, opt_view, record_of, records_json, records_of, records_to_json, violation, MemberNames, Record,
    WireName,
};
use crate::json::{
    bool_of, copy_members, field, lemma_field_concat, lemma_object_view, members, number_of, opt_i64_of, opt_member,
    opt_str_of, str_eq, str_of, Json, JsonView, JsonNumber,
};
use crate::SerdeError;

verus! {

/// Gender of the donor.
#[derive(Clone, Copy, Debug, PartialEq, Eq, Structural)]
pub enum Gender {
    Female,
    Male,
    Other,
    Unknown,
}

impl WireName for Gender {
    open spec fn wire(self) -> Seq<char> {
        match self {
            Gender::Female => "female"@,
            Gender::Male => "male"@,
            Gender::Other => "other"@,
            Gender::Unknown => "unknown"@,
        }
    }

    open spec fn parse_wire(s: Seq<char>) -> Option<Gender> {
        if s == "female"@ {
            Some(Gender::Female)
        } else if s == "male"@ {
            Some(Gender::Male)
        } else if s == "other"@ {
            Some(Gender::Other)
        } else if s == "unknown"@ {
            Some(Gender::Unknown)
        } else {
            None
        }
    }

    fn to_wire(&self) -> (r: &'static str) {
        match self {
            Gender::Female => "female",
            Gender::Male => "male",
            Gender::Other => "other",
            Gender::Unknown => "unknown",
        }
    }

    fn from_wire(s: &str) -> (r: Option<Gender>) {
        if str_eq(s, "female") {
            Some(Gender::Female)
        } else if str_eq(s, "male") {
            Some(Gender::Male)
        } else if str_eq(s, "other") {
            Some(Gender::Other)
        } else if str_eq(s, "unknown") {
            Some(Gender::Unknown)
        } else {
            None
        }
    }

    proof fn lemma_wire(self) {
        reveal_strlit("female");
        reveal_strlit("male");
        reveal_strlit("other");
        reveal_strlit("unknown");
        assert("female"@.len() == 6);
        assert("male"@.len() == 4);
        assert("other"@.len() == 5);
        assert("unknown"@.len() == 7);
        match self {
            Gender::Female => {},
            Gender::Male => {},
            Gender::Other => {},
            Gender::Unknown => {},
        }
    }

    proof fn lemma_parse(s: Seq<char>) {
    }
}

/// Manufacturer of the enrichment kit.
#[derive(Clone, Copy, Debug, PartialEq, Eq, Structural)]
pub enum EnrichmentKitManufacturer {
    Agilent,
    Illumina,
    Neb,
    NoEnrichment,
    Other,
    Twist,
    Unknown,
}

impl WireName for EnrichmentKitManufacturer {
    open spec fn wire(self) -> Seq<char> {
        match self {
            EnrichmentKitManufacturer::Agilent => "Agilent"@,
            EnrichmentKitManufacturer::Illumina => "Illumina"@,
            EnrichmentKitManufacturer::Neb => "NEB"@,
            EnrichmentKitManufacturer::NoEnrichment => "none"@,
            EnrichmentKitManufacturer::Other => "other"@,
            EnrichmentKitManufacturer::Twist => "Twist"@,
            EnrichmentKitManufacturer::Unknown => "unknown"@,
        }
    }

    open spec fn parse_wire(s: Seq<char>) -> Option<EnrichmentKitManufacturer> {
        if s == "Agilent"@ {
            Some(EnrichmentKitManufacturer::Agilent)
        } else if s == "Illumina"@ {
            Some(EnrichmentKitManufacturer::Illumina)
        } else if s == "NEB"@ {
            Some(EnrichmentKitManufacturer::Neb)
        } else if s == "none"@ {
            Some(EnrichmentKitManufacturer::NoEnrichment)
        } else if s == "other"@ {
            Some(EnrichmentKitManufacturer::Other)
        } else if s == "Twist"@ {
            Some(EnrichmentKitManufacturer::Twist)
        } else if s == "unknown"@ {
            Some(EnrichmentKitManufacturer::Unknown)
        } else {
            None
        }
    }

    fn to_wire(&self) -> (r: &'static str) {
        match self {
            EnrichmentKitManufacturer::Agilent => "Agilent",
            EnrichmentKitManufacturer::Illumina => "Illumina",
            EnrichmentKitManufacturer::Neb => "NEB",
            EnrichmentKitManufacturer::NoEnrichment => "none",
            EnrichmentKitManufacturer::Other => "other",
            EnrichmentKitManufacturer::Twist => "Twist",
            EnrichmentKitManufacturer::Unknown => "unknown",
        }
    }

    fn from_wire(s: &str) -> (r: Option<EnrichmentKitManufacturer>) {
        if str_eq(s, "Agilent") {
            Some(EnrichmentKitManufacturer::Agilent)
        } else if str_eq(s, "Illumina") {
            Some(EnrichmentKitManufacturer::Illumina)
        } else if str_eq(s, "NEB") {
            Some(EnrichmentKitManufacturer::Neb)
        } else if str_eq(s, "none") {
            Some(EnrichmentKitManufacturer::NoEnrichment)
        } else if str_eq(s, "other") {
            Some(EnrichmentKitManufacturer::Other)
        } else if str_eq(s, "Twist") {
            Some(EnrichmentKitManufacturer::Twist)
        } else if str_eq(s, "unknown") {
            Some(EnrichmentKitManufacturer::Unknown)
        } else {
            None
        }
    }

    proof fn lemma_wire(self) {
        reveal_strlit("Agilent");
        reveal_strlit("Illumina");
        reveal_strlit("NEB");
        reveal_strlit("none");
        reveal_strlit("other");
        reveal_strlit("Twist");
        reveal_strlit("unknown");
        assert("Agilent"@.len() == 7);
        assert("Illumina"@.len() == 8);
        assert("NEB"@.len() == 3);
        assert("none"@.len() == 4);
        assert("other"@.len() == 5);
        assert("Twist"@.len() == 5);
        assert("unknown"@.len() == 7);
        assert("Agilent"@[0] == 'A' && "unknown"@[0] == 'u');
        assert("other"@[0] == 'o' && "Twist"@[0] == 'T');
        match self {
            EnrichmentKitManufacturer::Agilent => {},
            EnrichmentKitManufacturer::Illumina => {},
            EnrichmentKitManufacturer::Neb => {},
            EnrichmentKitManufacturer::NoEnrichment => {},
            EnrichmentKitManufacturer::Other => {},
            EnrichmentKitManufacturer::Twist => {},
            EnrichmentKitManufacturer::Unknown => {},
        }
    }

    proof fn lemma_parse(s: Seq<char>) {
    }
}

/// Fragmentation method.
#[derive(Clone, Copy, Debug, PartialEq, Eq, Structural)]
pub enum FragmentationMethod {
    Enzymatic,
    NoFragmentation,
    Other,
    Sonication,
    Unknown,
}

impl WireName for FragmentationMethod {
    open spec fn wire(self) -> Seq<char> {
        match self {
            FragmentationMethod::Enzymatic => "enzymatic"@,
            FragmentationMethod::NoFragmentation => "none"@,
            FragmentationMethod::Other => "other"@,
            FragmentationMethod::Sonication => "sonication"@,
            FragmentationMethod::Unknown => "unknown"@,
        }
    }

    open spec fn parse_wire(s: Seq<char>) -> Option<FragmentationMethod> {
        if s == "enzymatic"@ {
            Some(FragmentationMethod::Enzymatic)
        } else if s == "none"@ {
            Some(FragmentationMethod::NoFragmentation)
        } else if s == "other"@ {
            Some(FragmentationMethod::Other)
        } else if s == "sonication"@ {
            Some(FragmentationMethod::Sonication)
        } else if s == "unknown"@ {
            Some(FragmentationMethod::Unknown)
        } else {
            None
        }
    }

    fn to_wire(&self) -> (r: &'static str) {
        match self {
            FragmentationMethod::Enzymatic => "enzymatic",
            FragmentationMethod::NoFragmentation => "none",
            FragmentationMethod::Other => "other",
            FragmentationMethod::Sonication => "sonication",
            FragmentationMethod::Unknown => "unknown",
        }
    }

    fn from_wire(s: &str) -> (r: Option<FragmentationMethod>) {
        if str_eq(s, "enzymatic") {
            Some(FragmentationMethod::Enzymatic)
        } else if str_eq(s, "none") {
            Some(FragmentationMethod::NoFragmentation)
        } else if str_eq(s, "other") {
            Some(FragmentationMethod::Other)
        } else if str_eq(s, "sonication") {
            Some(FragmentationMethod::Sonication)
        } else if str_eq(s, "unknown") {
            Some(FragmentationMethod::Unknown)
        } else {
            None
        }
    }

    proof fn lemma_wire(self) {
        reveal_strlit("enzymatic");
        reveal_strlit("none");
        reveal_strlit("other");
        reveal_strlit("sonication");
        reveal_strlit("unknown");
        assert("enzymatic"@.len() == 9);
        assert("none"@.len() == 4);
        assert("other"@.len() == 5);
        assert("sonication"@.len() == 10);
        assert("unknown"@.len() == 7);
        match self {
            FragmentationMethod::Enzymatic => {},
            FragmentationMethod::NoFragmentation => {},
            FragmentationMethod::Other => {},
            FragmentationMethod::Sonication => {},
            FragmentationMethod::Unknown => {},
        }
    }

    proof fn lemma_parse(s: Seq<char>) {
    }
}

/// Library type.
#[derive(Clone, Copy, Debug, PartialEq, Eq, Structural)]
pub enum LibraryType {
    Other,
    Panel,
    PanelLr,
    Unknown,
    Wes,
    WesLr,
    Wgs,
    WgsLr,
    Wxs,
    WxsLr,
}

impl WireName for LibraryType {
    open spec fn wire(self) -> Seq<char> {
        match self {
            LibraryType::Other => "other"@,
            LibraryType::Panel => "panel"@,
            LibraryType::PanelLr => "panel_lr"@,
            LibraryType::Unknown => "unknown"@,
            LibraryType::Wes => "wes"@,
            LibraryType::WesLr => "wes_lr"@,
            LibraryType::Wgs => "wgs"@,
            LibraryType::WgsLr => "wgs_lr"@,
            LibraryType::Wxs => "wxs"@,
            LibraryType::WxsLr => "wxs_lr"@,
        }
    }

    open spec fn parse_wire(s: Seq<char>) -> Option<LibraryType> {
        if s == "other"@ {
            Some(LibraryType::Other)
        } else if s == "panel"@ {
            Some(LibraryType::Panel)
        } else if s == "panel_lr"@ {
            Some(LibraryType::PanelLr)
        } else if s == "unknown"@ {
            Some(LibraryType::Unknown)
        } else if s == "wes"@ {
            Some(LibraryType::Wes)
        } else if s == "wes_lr"@ {
            Some(LibraryType::WesLr)
        } else if s == "wgs"@ {
            Some(LibraryType::Wgs)
        } else if s == "wgs_lr"@ {
            Some(LibraryType::WgsLr)
        } else if s == "wxs"@ {
            Some(LibraryType::Wxs)
        } else if s == "wxs_lr"@ {
            Some(LibraryType::WxsLr)
        } else {
            None
        }
    }

    fn to_wire(&self) -> (r: &'static str) {
        match self {
            LibraryType::Other => "other",
            LibraryType::Panel => "panel",
            LibraryType::PanelLr => "panel_lr",
            LibraryType::Unknown => "unknown",
            LibraryType::Wes => "wes",
            LibraryType::WesLr => "wes_lr",
            LibraryType::Wgs => "wgs",
            LibraryType::WgsLr => "wgs_lr",
            LibraryType::Wxs => "wxs",
            LibraryType::WxsLr => "wxs_lr",
        }
    }

    fn from_wire(s: &str) -> (r: Option<LibraryType>) {
        if str_eq(s, "other") {
            Some(LibraryType::Other)
        } else if str_eq(s, "panel") {
            Some(LibraryType::Panel)
        } else if str_eq(s, "panel_lr") {
            Some(LibraryType::PanelLr)
        } else if str_eq(s, "unknown") {
            Some(LibraryType::Unknown)
        } else if str_eq(s, "wes") {
            Some(LibraryType::Wes)
        } else if str_eq(s, "wes_lr") {
            Some(LibraryType::WesLr)
        } else if str_eq(s, "wgs") {
            Some(LibraryType::Wgs)
        } else if str_eq(s, "wgs_lr") {
            Some(LibraryType::WgsLr)
        } else if str_eq(s, "wxs") {
            Some(LibraryType::Wxs)
        } else if str_eq(s, "wxs_lr") {
            Some(LibraryType::WxsLr)
        } else {
            None
        }
    }

    proof fn lemma_wire(self) {
        reveal_strlit("other");
        reveal_strlit("panel");
        reveal_strlit("panel_lr");
        reveal_strlit("unknown");
        reveal_strlit("wes");
        reveal_strlit("wes_lr");
        reveal_strlit("wgs");
        reveal_strlit("wgs_lr");
        reveal_strlit("wxs");
        reveal_strlit("wxs_lr");
        assert("other"@.len() == 5);
        assert("panel"@.len() == 5);
        assert("panel_lr"@.len() == 8);
        assert("unknown"@.len() == 7);
        assert("wes"@.len() == 3);
        assert("wes_lr"@.len() == 6);
        assert("wgs"@.len() == 3);
        assert("wgs_lr"@.len() == 6);
        assert("wxs"@.len() == 3);
        assert("wxs_lr"@.len() == 6);
        assert("other"@[0] == 'o' && "panel"@[0] == 'p');
        assert("wes"@[1] == 'e' && "wgs"@[1] == 'g');
        assert("wes"@[1] == 'e' && "wxs"@[1] == 'x');
        assert("wes_lr"@[1] == 'e' && "wgs_lr"@[1] == 'g');
        assert("wes_lr"@[1] == 'e' && "wxs_lr"@[1] == 'x');
        assert("wgs"@[1] == 'g' && "wxs"@[1] == 'x');
        assert("wgs_lr"@[1] == 'g' && "wxs_lr"@[1] == 'x');
        match self {
            LibraryType::Other => {},
            LibraryType::Panel => {},
            LibraryType::PanelLr => {},
            LibraryType::Unknown => {},
            LibraryType::Wes => {},
            LibraryType::WesLr => {},
            LibraryType::Wgs => {},
            LibraryType::WgsLr => {},
            LibraryType::Wxs => {},
            LibraryType::WxsLr => {},
        }
    }

    proof fn lemma_parse(s: Seq<char>) {
    }
}

/// Sample conservation.
#[derive(Clone, Copy, Debug, PartialEq, Eq, Structural)]
pub enum SampleConservation {
    CryoFrozen,
    Ffpe,
    FreshTissue,
    Other,
    Unknown,
}

impl WireName for SampleConservation {
    open spec fn wire(self) -> Seq<char> {
        match self {
            SampleConservation::CryoFrozen => "cryo-frozen"@,
            SampleConservation::Ffpe => "ffpe"@,
            SampleConservation::FreshTissue => "fresh-tissue"@,
            SampleConservation::Other => "other"@,
            SampleConservation::Unknown => "unknown"@,
        }
    }

    open spec fn parse_wire(s: Seq<char>) -> Option<SampleConservation> {
        if s == "cryo-frozen"@ {
            Some(SampleConservation::CryoFrozen)
        } else if s == "ffpe"@ {
            Some(SampleConservation::Ffpe)
        } else if s == "fresh-tissue"@ {
            Some(SampleConservation::FreshTissue)
        } else if s == "other"@ {
            Some(SampleConservation::Other)
        } else if s == "unknown"@ {
            Some(SampleConservation::Unknown)
        } else {
            None
        }
    }

    fn to_wire(&self) -> (r: &'static str) {
        match self {
            SampleConservation::CryoFrozen => "cryo-frozen",
            SampleConservation::Ffpe => "ffpe",
            SampleConservation::FreshTissue => "fresh-tissue",
            SampleConservation::Other => "other",
            SampleConservation::Unknown => "unknown",
        }
    }

    fn from_wire(s: &str) -> (r: Option<SampleConservation>) {
        if str_eq(s, "cryo-frozen") {
            Some(SampleConservation::CryoFrozen)
        } else if str_eq(s, "ffpe") {
            Some(SampleConservation::Ffpe)
        } else if str_eq(s, "fresh-tissue") {
            Some(SampleConservation::FreshTissue)
        } else if str_eq(s, "other") {
            Some(SampleConservation::Other)
        } else if str_eq(s, "unknown") {
            Some(SampleConservation::Unknown)
        } else {
            None
        }
    }

    proof fn lemma_wire(self) {
        reveal_strlit("cryo-frozen");
        reveal_strlit("ffpe");
        reveal_strlit("fresh-tissue");
        reveal_strlit("other");
        reveal_strlit("unknown");
        assert("cryo-frozen"@.len() == 11);
        assert("ffpe"@.len() == 4);
        assert("fresh-tissue"@.len() == 12);
        assert("other"@.len() == 5);
        assert("unknown"@.len() == 7);
        match self {
            SampleConservation::CryoFrozen => {},
            SampleConservation::Ffpe => {},
            SampleConservation::FreshTissue => {},
            SampleConservation::Other => {},
            SampleConservation::Unknown => {},
        }
    }

    proof fn lemma_parse(s: Seq<char>) {
    }
}

/// Type of checksum algorithm used.
#[derive(Clone, Copy, Debug, PartialEq, Eq, Structural)]
pub enum ChecksumType {
    Sha256,
}

impl WireName for ChecksumType {
    open spec fn wire(self) -> Seq<char> {
        match self {
            ChecksumType::Sha256 => "sha256"@,
        }
    }

    open spec fn parse_wire(s: Seq<char>) -> Option<ChecksumType> {
        if s == "sha256"@ {
            Some(ChecksumType::Sha256)
        } else {
            None
        }
    }

    fn to_wire(&self) -> (r: &'static str) {
        match self {
            ChecksumType::Sha256 => "sha256",
        }
    }

    fn from_wire(s: &str) -> (r: Option<ChecksumType>) {
        if str_eq(s, "sha256") {
            Some(ChecksumType::Sha256)
        } else {
            None
        }
    }

    proof fn lemma_wire(self) {
        reveal_strlit("sha256");
        assert("sha256"@.len() == 6);
        match self {
            ChecksumType::Sha256 => {},
        }
    }

    proof fn lemma_parse(s: Seq<char>) {
    }
}

/// Type of the file; if a BED file is submitted, only one file is allowed.
#[derive(Clone, Copy, Debug, PartialEq, Eq, Structural)]
pub enum FileType {
    Bam,
    Bed,
    Fastq,
    Vcf,
}

impl WireName for FileType {
    open spec fn wire(self) -> Seq<char> {
        match self {
            FileType::Bam => "bam"@,
            FileType::Bed => "bed"@,
            FileType::Fastq => "fastq"@,
            FileType::Vcf => "vcf"@,
        }
    }

    open spec fn parse_wire(s: Seq<char>) -> Option<FileType> {
        if s == "bam"@ {
            Some(FileType::Bam)
        } else if s == "bed"@ {
            Some(FileType::Bed)
        } else if s == "fastq"@ {
            Some(FileType::Fastq)
        } else if s == "vcf"@ {
            Some(FileType::Vcf)
        } else {
            None
        }
    }

    fn to_wire(&self) -> (r: &'static str) {
        match self {
            FileType::Bam => "bam",
            FileType::Bed => "bed",
            FileType::Fastq => "fastq",
            FileType::Vcf => "vcf",
        }
    }

    fn from_wire(s: &str) -> (r: Option<FileType>) {
        if str_eq(s, "bam") {
            Some(FileType::Bam)
        } else if str_eq(s, "bed") {
            Some(FileType::Bed)
        } else if str_eq(s, "fastq") {
            Some(FileType::Fastq)
        } else if str_eq(s, "vcf") {
            Some(FileType::Vcf)
        } else {
            None
        }
    }

    proof fn lemma_wire(self) {
        reveal_strlit("bam");
        reveal_strlit("bed");
        reveal_strlit("fastq");
        reveal_strlit("vcf");
        assert("bam"@.len() == 3);
        assert("bed"@.len() == 3);
        assert("fastq"@.len() == 5);
        assert("vcf"@.len() == 3);
        assert("bam"@[1] == 'a' && "bed"@[1] == 'e');
        assert("bam"@[0] == 'b' && "vcf"@[0] == 'v');
        assert("bed"@[0] == 'b' && "vcf"@[0] == 'v');
        match self {
            FileType::Bam => {},
            FileType::Bed => {},
            FileType::Fastq => {},
            FileType::Vcf => {},
        }
    }

    proof fn lemma_parse(s: Seq<char>) {
    }
}

/// Read order for paired-end reads.
#[derive(Clone, Copy, Debug, PartialEq, Eq, Structural)]
pub enum ReadOrder {
    R1,
    R2,
}

impl WireName for ReadOrder {
    open spec fn wire(self) -> Seq<char> {
        match self {
            ReadOrder::R1 => "R1"@,
            ReadOrder::R2 => "R2"@,
        }
    }

    open spec fn parse_wire(s: Seq<char>) -> Option<ReadOrder> {
        if s == "R1"@ {
            Some(ReadOrder::R1)
        } else if s == "R2"@ {
            Some(ReadOrder::R2)
        } else {
            None
        }
    }

    fn to_wire(&self) -> (r: &'static str) {
        match self {
            ReadOrder::R1 => "R1",
            ReadOrder::R2 => "R2",
        }
    }

    fn from_wire(s: &str) -> (r: Option<ReadOrder>) {
        if str_eq(s, "R1") {
            Some(ReadOrder::R1)
        } else if str_eq(s, "R2") {
            Some(ReadOrder::R2)
        } else {
            None
        }
    }

    proof fn lemma_wire(self) {
        reveal_strlit("R1");
        reveal_strlit("R2");
        assert("R1"@.len() == 2);
        assert("R2"@.len() == 2);
        assert("R1"@[1] == '1' && "R2"@[1] == '2');
        match self {
            ReadOrder::R1 => {},
            ReadOrder::R2 => {},
        }
    }

    proof fn lemma_parse(s: Seq<char>) {
    }
}

/// Reference genome used, as named by the Genome Reference Consortium.
#[derive(Clone, Copy, Debug, PartialEq, Eq, Structural)]
pub enum ReferenceGenome {
    GrCh37,
    GrCh38,
}

impl WireName for ReferenceGenome {
    open spec fn wire(self) -> Seq<char> {
        match self {
            ReferenceGenome::GrCh37 => "GRCh37"@,
            ReferenceGenome::GrCh38 => "GRCh38"@,
        }
    }

    open spec fn parse_wire(s: Seq<char>) -> Option<ReferenceGenome> {
        if s == "GRCh37"@ {
            Some(ReferenceGenome::GrCh37)
        } else if s == "GRCh38"@ {
            Some(ReferenceGenome::GrCh38)
        } else {
            None
        }
    }

    fn to_wire(&self) -> (r: &'static str) {
        match self {
            ReferenceGenome::GrCh37 => "GRCh37",
            ReferenceGenome::GrCh38 => "GRCh38",
        }
    }

    fn from_wire(s: &str) -> (r: Option<ReferenceGenome>) {
        if str_eq(s, "GRCh37") {
            Some(ReferenceGenome::GrCh37)
        } else if str_eq(s, "GRCh38") {
            Some(ReferenceGenome::GrCh38)
        } else {
            None
        }
    }

    proof fn lemma_wire(self) {
        reveal_strlit("GRCh37");
        reveal_strlit("GRCh38");
        assert("GRCh37"@.len() == 6);
        assert("GRCh38"@.len() == 6);
        assert("GRCh37"@[5] == '7' && "GRCh38"@[5] == '8');
        match self {
            ReferenceGenome::GrCh37 => {},
            ReferenceGenome::GrCh38 => {},
        }
    }

    proof fn lemma_parse(s: Seq<char>) {
    }
}

/// Subtype of sequence (germline, somatic, etc.).
#[derive(Clone, Copy, Debug, PartialEq, Eq, Structural)]
pub enum SequenceSubtype {
    Germline,
    Other,
    Somatic,
    Unknown,
}

impl WireName for SequenceSubtype {
    open spec fn wire(self) -> Seq<char> {
        match self {
            SequenceSubtype::Germline => "germline"@,
            SequenceSubtype::Other => "other"@,
            SequenceSubtype::Somatic => "somatic"@,
            SequenceSubtype::Unknown => "unknown"@,
        }
    }

    open spec fn parse_wire(s: Seq<char>) -> Option<SequenceSubtype> {
        if s == "germline"@ {
            Some(SequenceSubtype::Germline)
        } else if s == "other"@ {
            Some(SequenceSubtype::Other)
        } else if s == "somatic"@ {
            Some(SequenceSubtype::Somatic)
        } else if s == "unknown"@ {
            Some(SequenceSubtype::Unknown)
        } else {
            None
        }
    }

    fn to_wire(&self) -> (r: &'static str) {
        match self {
            SequenceSubtype::Germline => "germline",
            SequenceSubtype::Other => "other",
            SequenceSubtype::Somatic => "somatic",
            SequenceSubtype::Unknown => "unknown",
        }
    }

    fn from_wire(s: &str) -> (r: Option<SequenceSubtype>) {
        if str_eq(s, "germline") {
            Some(SequenceSubtype::Germline)
        } else if str_eq(s, "other") {
            Some(SequenceSubtype::Other)
        } else if str_eq(s, "somatic") {
            Some(SequenceSubtype::Somatic)
        } else if str_eq(s, "unknown") {
            Some(SequenceSubtype::Unknown)
        } else {
            None
        }
    }

    proof fn lemma_wire(self) {
        reveal_strlit("germline");
        reveal_strlit("other");
        reveal_strlit("somatic");
        reveal_strlit("unknown");
        assert("germline"@.len() == 8);
        assert("other"@.len() == 5);
        assert("somatic"@.len() == 7);
        assert("unknown"@.len() == 7);
        assert("somatic"@[0] == 's' && "unknown"@[0] == 'u');
        match self {
            SequenceSubtype::Germline => {},
            SequenceSubtype::Other => {},
            SequenceSubtype::Somatic => {},
            SequenceSubtype::Unknown => {},
        }
    }

    proof fn lemma_parse(s: Seq<char>) {
    }
}

/// Type of sequence (DNA or RNA).
#[derive(Clone, Copy, Debug, PartialEq, Eq, Structural)]
pub enum SequenceType {
    Dna,
    Rna,
}

impl WireName for SequenceType {
    open spec fn wire(self) -> Seq<char> {
        match self {
            SequenceType::Dna => "dna"@,
            SequenceType::Rna => "rna"@,
        }
    }

    open spec fn parse_wire(s: Seq<char>) -> Option<SequenceType> {
        if s == "dna"@ {
            Some(SequenceType::Dna)
        } else if s == "rna"@ {
            Some(SequenceType::Rna)
        } else {
            None
        }
    }

    fn to_wire(&self) -> (r: &'static str) {
        match self {
            SequenceType::Dna => "dna",
            SequenceType::Rna => "rna",
        }
    }

    fn from_wire(s: &str) -> (r: Option<SequenceType>) {
        if str_eq(s, "dna") {
            Some(SequenceType::Dna)
        } else if str_eq(s, "rna") {
            Some(SequenceType::Rna)
        } else {
            None
        }
    }

    proof fn lemma_wire(self) {
        reveal_strlit("dna");
        reveal_strlit("rna");
        assert("dna"@.len() == 3);
        assert("rna"@.len() == 3);
        assert("dna"@[0] == 'd' && "rna"@[0] == 'r');
        match self {
            SequenceType::Dna => {},
            SequenceType::Rna => {},
        }
    }

    proof fn lemma_parse(s: Seq<char>) {
    }
}

/// The sequencing layout, aka the end type of sequencing.
#[derive(Clone, Copy, Debug, PartialEq, Eq, Structural)]
pub enum SequencingLayout {
    Other,
    PairedEnd,
    Reverse,
    SingleEnd,
}

impl WireName for SequencingLayout {
    open spec fn wire(self) -> Seq<char> {
        match self {
            SequencingLayout::Other => "other"@,
            SequencingLayout::PairedEnd => "paired-end"@,
            SequencingLayout::Reverse => "reverse"@,
            SequencingLayout::SingleEnd => "single-end"@,
        }
    }

    open spec fn parse_wire(s: Seq<char>) -> Option<SequencingLayout> {
        if s == "other"@ {
            Some(SequencingLayout::Other)
        } else if s == "paired-end"@ {
            Some(SequencingLayout::PairedEnd)
        } else if s == "reverse"@ {
            Some(SequencingLayout::Reverse)
        } else if s == "single-end"@ {
            Some(SequencingLayout::SingleEnd)
        } else {
            None
        }
    }

    fn to_wire(&self) -> (r: &'static str) {
        match self {
            SequencingLayout::Other => "other",
            SequencingLayout::PairedEnd => "paired-end",
            SequencingLayout::Reverse => "reverse",
            SequencingLayout::SingleEnd => "single-end",
        }
    }

    fn from_wire(s: &str) -> (r: Option<SequencingLayout>) {
        if str_eq(s, "other") {
            Some(SequencingLayout::Other)
        } else if str_eq(s, "paired-end") {
            Some(SequencingLayout::PairedEnd)
        } else if str_eq(s, "reverse") {
            Some(SequencingLayout::Reverse)
        } else if str_eq(s, "single-end") {
            Some(SequencingLayout::SingleEnd)
        } else {
            None
        }
    }

    proof fn lemma_wire(self) {
        reveal_strlit("other");
        reveal_strlit("paired-end");
        reveal_strlit("reverse");
        reveal_strlit("single-end");
        assert("other"@.len() == 5);
        assert("paired-end"@.len() == 10);
        assert("reverse"@.len() == 7);
        assert("single-end"@.len() == 10);
        assert("paired-end"@[0] == 'p' && "single-end"@[0] == 's');
        match self {
            SequencingLayout::Other => {},
            SequencingLayout::PairedEnd => {},
            SequencingLayout::Reverse => {},
            SequencingLayout::SingleEnd => {},
        }
    }

    proof fn lemma_parse(s: Seq<char>) {
    }
}

/// Method used to determine a tumor cell count.
#[derive(Clone, Copy, Debug, PartialEq, Eq, Structural)]
pub enum Method {
    Bioinformatics,
    Other,
    Pathology,
    Unknown,
}

impl WireName for Method {
    open spec fn wire(self) -> Seq<char> {
        match self {
            Method::Bioinformatics => "bioinformatics"@,
            Method::Other => "other"@,
            Method::Pathology => "pathology"@,
            Method::Unknown => "unknown"@,
        }
    }

    open spec fn parse_wire(s: Seq<char>) -> Option<Method> {
        if s == "bioinformatics"@ {
            Some(Method::Bioinformatics)
        } else if s == "other"@ {
            Some(Method::Other)
        } else if s == "pathology"@ {
            Some(Method::Pathology)
        } else if s == "unknown"@ {
            Some(Method::Unknown)
        } else {
            None
        }
    }

    fn to_wire(&self) -> (r: &'static str) {
        match self {
            Method::Bioinformatics => "bioinformatics",
            Method::Other => "other",
            Method::Pathology => "pathology",
            Method::Unknown => "unknown",
        }
    }

    fn from_wire(s: &str) -> (r: Option<Method>) {
        if str_eq(s, "bioinformatics") {
            Some(Method::Bioinformatics)
        } else if str_eq(s, "other") {
            Some(Method::Other)
        } else if str_eq(s, "pathology") {
            Some(Method::Pathology)
        } else if str_eq(s, "unknown") {
            Some(Method::Unknown)
        } else {
            None
        }
    }

    proof fn lemma_wire(self) {
        reveal_strlit("bioinformatics");
        reveal_strlit("other");
        reveal_strlit("pathology");
        reveal_strlit("unknown");
        assert("bioinformatics"@.len() == 14);
        assert("other"@.len() == 5);
        assert("pathology"@.len() == 9);
        assert("unknown"@.len() == 7);
        match self {
            Method::Bioinformatics => {},
            Method::Other => {},
            Method::Pathology => {},
            Method::Unknown => {},
        }
    }

    proof fn lemma_parse(s: Seq<char>) {
    }
}

/// Scope of consent or revocation.
#[derive(Clone, Copy, Debug, PartialEq, Eq, Structural)]
pub enum Domain {
    CaseIdentification,
    MvSequencing,
    ReIdentification,
}

impl WireName for Domain {
    open spec fn wire(self) -> Seq<char> {
        match self {
            Domain::CaseIdentification => "caseIdentification"@,
            Domain::MvSequencing => "mvSequencing"@,
            Domain::ReIdentification => "reIdentification"@,
        }
    }

    open spec fn parse_wire(s: Seq<char>) -> Option<Domain> {
        if s == "caseIdentification"@ {
            Some(Domain::CaseIdentification)
        } else if s == "mvSequencing"@ {
            Some(Domain::MvSequencing)
        } else if s == "reIdentification"@ {
            Some(Domain::ReIdentification)
        } else {
            None
        }
    }

    fn to_wire(&self) -> (r: &'static str) {
        match self {
            Domain::CaseIdentification => "caseIdentification",
            Domain::MvSequencing => "mvSequencing",
            Domain::ReIdentification => "reIdentification",
        }
    }

    fn from_wire(s: &str) -> (r: Option<Domain>) {
        if str_eq(s, "caseIdentification") {
            Some(Domain::CaseIdentification)
        } else if str_eq(s, "mvSequencing") {
            Some(Domain::MvSequencing)
        } else if str_eq(s, "reIdentification") {
            Some(Domain::ReIdentification)
        } else {
            None
        }
    }

    proof fn lemma_wire(self) {
        reveal_strlit("caseIdentification");
        reveal_strlit("mvSequencing");
        reveal_strlit("reIdentification");
        assert("caseIdentification"@.len() == 18);
        assert("mvSequencing"@.len() == 12);
        assert("reIdentification"@.len() == 16);
        match self {
            Domain::CaseIdentification => {},
            Domain::MvSequencing => {},
            Domain::ReIdentification => {},
        }
    }

    proof fn lemma_parse(s: Seq<char>) {
    }
}

/// Consent or refusal, given for each option in the scope of consent.
#[derive(Clone, Copy, Debug, PartialEq, Eq, Structural)]
pub enum Type {
    Deny,
    Permit,
}

impl WireName for Type {
    open spec fn wire(self) -> Seq<char> {
        match self {
            Type::Deny => "deny"@,
            Type::Permit => "permit"@,
        }
    }

    open spec fn parse_wire(s: Seq<char>) -> Option<Type> {
        if s == "deny"@ {
            Some(Type::Deny)
        } else if s == "permit"@ {
            Some(Type::Permit)
        } else {
            None
        }
    }

    fn to_wire(&self) -> (r: &'static str) {
        match self {
            Type::Deny => "deny",
            Type::Permit => "permit",
        }
    }

    fn from_wire(s: &str) -> (r: Option<Type>) {
        if str_eq(s, "deny") {
            Some(Type::Deny)
        } else if str_eq(s, "permit") {
            Some(Type::Permit)
        } else {
            None
        }
    }

    proof fn lemma_wire(self) {
        reveal_strlit("deny");
        reveal_strlit("permit");
        assert("deny"@.len() == 4);
        assert("permit"@.len() == 6);
        match self {
            Type::Deny => {},
            Type::Permit => {},
        }
    }

    proof fn lemma_parse(s: Seq<char>) {
    }
}

/// Relationship of the donor to the index patient.
#[derive(Clone, Copy, Debug, PartialEq, Eq, Structural)]
pub enum Relation {
    Brother,
    Child,
    Father,
    Index,
    Mother,
    Other,
    Sister,
}

impl WireName for Relation {
    open spec fn wire(self) -> Seq<char> {
        match self {
            Relation::Brother => "brother"@,
            Relation::Child => "child"@,
            Relation::Father => "father"@,
            Relation::Index => "index"@,
            Relation::Mother => "mother"@,
            Relation::Other => "other"@,
            Relation::Sister => "sister"@,
        }
    }

    open spec fn parse_wire(s: Seq<char>) -> Option<Relation> {
        if s == "brother"@ {
            Some(Relation::Brother)
        } else if s == "child"@ {
            Some(Relation::Child)
        } else if s == "father"@ {
            Some(Relation::Father)
        } else if s == "index"@ {
            Some(Relation::Index)
        } else if s == "mother"@ {
            Some(Relation::Mother)
        } else if s == "other"@ {
            Some(Relation::Other)
        } else if s == "sister"@ {
            Some(Relation::Sister)
        } else {
            None
        }
    }

    fn to_wire(&self) -> (r: &'static str) {
        match self {
            Relation::Brother => "brother",
            Relation::Child => "child",
            Relation::Father => "father",
            Relation::Index => "index",
            Relation::Mother => "mother",
            Relation::Other => "other",
            Relation::Sister => "sister",
        }
    }

    fn from_wire(s: &str) -> (r: Option<Relation>) {
        if str_eq(s, "brother") {
            Some(Relation::Brother)
        } else if str_eq(s, "child") {
            Some(Relation::Child)
        } else if str_eq(s, "father") {
            Some(Relation::Father)
        } else if str_eq(s, "index") {
            Some(Relation::Index)
        } else if str_eq(s, "mother") {
            Some(Relation::Mother)
        } else if str_eq(s, "other") {
            Some(Relation::Other)
        } else if str_eq(s, "sister") {
            Some(Relation::Sister)
        } else {
            None
        }
    }

    proof fn lemma_wire(self) {
        reveal_strlit("brother");
        reveal_strlit("child");
        reveal_strlit("father");
        reveal_strlit("index");
        reveal_strlit("mother");
        reveal_strlit("other");
        reveal_strlit("sister");
        assert("brother"@.len() == 7);
        assert("child"@.len() == 5);
        assert("father"@.len() == 6);
        assert("index"@.len() == 5);
        assert("mother"@.len() == 6);
        assert("other"@.len() == 5);
        assert("sister"@.len() == 6);
        assert("child"@[0] == 'c' && "index"@[0] == 'i');
        assert("child"@[0] == 'c' && "other"@[0] == 'o');
        assert("father"@[0] == 'f' && "mother"@[0] == 'm');
        assert("father"@[0] == 'f' && "sister"@[0] == 's');
        assert("index"@[0] == 'i' && "other"@[0] == 'o');
        assert("mother"@[0] == 'm' && "sister"@[0] == 's');
        match self {
            Relation::Brother => {},
            Relation::Child => {},
            Relation::Father => {},
            Relation::Index => {},
            Relation::Mother => {},
            Relation::Other => {},
            Relation::Sister => {},
        }
    }

    proof fn lemma_parse(s: Seq<char>) {
    }
}

/// Justification if no scope object is present.
#[derive(Clone, Copy, Debug, PartialEq, Eq, Structural)]
pub enum NoScopeJustification {
    TechnicalReason,
    OrganizationalIssues,
    OtherPatientRelatedReason,
    PatientDidNotReturnConsentDocuments,
    PatientRefusesToSignConsent,
    PatientUnableToConsent,
}

impl WireName for NoScopeJustification {
    open spec fn wire(self) -> Seq<char> {
        match self {
            NoScopeJustification::TechnicalReason => "consent information cannot be submitted by LE due to technical reason"@,
            NoScopeJustification::OrganizationalIssues => "consent is not implemented at LE due to organizational issues"@,
            NoScopeJustification::OtherPatientRelatedReason => "other patient-related reason"@,
            NoScopeJustification::PatientDidNotReturnConsentDocuments => "patient did not return consent documents"@,
            NoScopeJustification::PatientRefusesToSignConsent => "patient refuses to sign consent"@,
            NoScopeJustification::PatientUnableToConsent => "patient unable to consent"@,
        }
    }

    open spec fn parse_wire(s: Seq<char>) -> Option<NoScopeJustification> {
        if s == "consent information cannot be submitted by LE due to technical reason"@ {
            Some(NoScopeJustification::TechnicalReason)
        } else if s == "consent is not implemented at LE due to organizational issues"@ {
            Some(NoScopeJustification::OrganizationalIssues)
        } else if s == "other patient-related reason"@ {
            Some(NoScopeJustification::OtherPatientRelatedReason)
        } else if s == "patient did not return consent documents"@ {
            Some(NoScopeJustification::PatientDidNotReturnConsentDocuments)
        } else if s == "patient refuses to sign consent"@ {
            Some(NoScopeJustification::PatientRefusesToSignConsent)
        } else if s == "patient unable to consent"@ {
            Some(NoScopeJustification::PatientUnableToConsent)
        } else {
            None
        }
    }

    fn to_wire(&self) -> (r: &'static str) {
        match self {
            NoScopeJustification::TechnicalReason => "consent information cannot be submitted by LE due to technical reason",
            NoScopeJustification::OrganizationalIssues => "consent is not implemented at LE due to organizational issues",
            NoScopeJustification::OtherPatientRelatedReason => "other patient-related reason",
            NoScopeJustification::PatientDidNotReturnConsentDocuments => "patient did not return consent documents",
            NoScopeJustification::PatientRefusesToSignConsent => "patient refuses to sign consent",
            NoScopeJustification::PatientUnableToConsent => "patient unable to consent",
        }
    }

    fn from_wire(s: &str) -> (r: Option<NoScopeJustification>) {
        if str_eq(s, "consent information cannot be submitted by LE due to technical reason") {
            Some(NoScopeJustification::TechnicalReason)
        } else if str_eq(s, "consent is not implemented at LE due to organizational issues") {
            Some(NoScopeJustification::OrganizationalIssues)
        } else if str_eq(s, "other patient-related reason") {
            Some(NoScopeJustification::OtherPatientRelatedReason)
        } else if str_eq(s, "patient did not return consent documents") {
            Some(NoScopeJustification::PatientDidNotReturnConsentDocuments)
        } else if str_eq(s, "patient refuses to sign consent") {
            Some(NoScopeJustification::PatientRefusesToSignConsent)
        } else if str_eq(s, "patient unable to consent") {
            Some(NoScopeJustification::PatientUnableToConsent)
        } else {
            None
        }
    }

    proof fn lemma_wire(self) {
        reveal_strlit("consent information cannot be submitted by LE due to technical reason");
        reveal_strlit("consent is not implemented at LE due to organizational issues");
        reveal_strlit("other patient-related reason");
        reveal_strlit("patient did not return consent documents");
        reveal_strlit("patient refuses to sign consent");
        reveal_strlit("patient unable to consent");
        assert("consent information cannot be submitted by LE due to technical reason"@.len() == 69);
        assert("consent is not implemented at LE due to organizational issues"@.len() == 61);
        assert("other patient-related reason"@.len() == 28);
        assert("patient did not return consent documents"@.len() == 40);
        assert("patient refuses to sign consent"@.len() == 31);
        assert("patient unable to consent"@.len() == 25);
        match self {
            NoScopeJustification::TechnicalReason => {},
            NoScopeJustification::OrganizationalIssues => {},
            NoScopeJustification::OtherPatientRelatedReason => {},
            NoScopeJustification::PatientDidNotReturnConsentDocuments => {},
            NoScopeJustification::PatientRefusesToSignConsent => {},
            NoScopeJustification::PatientUnableToConsent => {},
        }
    }

    proof fn lemma_parse(s: Seq<char>) {
    }
}

/// Schema version of the embedded consent document.
#[derive(Clone, Copy, Debug, PartialEq, Eq, Structural)]
pub enum SchemaVersion {
    Version202501,
}

impl WireName for SchemaVersion {
    open spec fn wire(self) -> Seq<char> {
        match self {
            SchemaVersion::Version202501 => "2025.0.1"@,
        }
    }

    open spec fn parse_wire(s: Seq<char>) -> Option<SchemaVersion> {
        if s == "2025.0.1"@ {
            Some(SchemaVersion::Version202501)
        } else {
            None
        }
    }

    fn to_wire(&self) -> (r: &'static str) {
        match self {
            SchemaVersion::Version202501 => "2025.0.1",
        }
    }

    fn from_wire(s: &str) -> (r: Option<SchemaVersion>) {
        if str_eq(s, "2025.0.1") {
            Some(SchemaVersion::Version202501)
        } else {
            None
        }
    }

    proof fn lemma_wire(self) {
        reveal_strlit("2025.0.1");
        assert("2025.0.1"@.len() == 8);
        match self {
            SchemaVersion::Version202501 => {},
        }
    }

    proof fn lemma_parse(s: Seq<char>) {
    }
}

/// Kind of insurance coverage of the index patient.
#[derive(Clone, Copy, Debug, PartialEq, Eq, Structural)]
pub enum CoverageType {
    Bei,
    Bg,
    Gkv,
    Gpv,
    Pkv,
    Ppv,
    Sel,
    Skt,
    Soz,
    Unk,
}

impl WireName for CoverageType {
    open spec fn wire(self) -> Seq<char> {
        match self {
            CoverageType::Bei => "BEI"@,
            CoverageType::Bg => "BG"@,
            CoverageType::Gkv => "GKV"@,
            CoverageType::Gpv => "GPV"@,
            CoverageType::Pkv => "PKV"@,
            CoverageType::Ppv => "PPV"@,
            CoverageType::Sel => "SEL"@,
            CoverageType::Skt => "SKT"@,
            CoverageType::Soz => "SOZ"@,
            CoverageType::Unk => "UNK"@,
        }
    }

    open spec fn parse_wire(s: Seq<char>) -> Option<CoverageType> {
        if s == "BEI"@ {
            Some(CoverageType::Bei)
        } else if s == "BG"@ {
            Some(CoverageType::Bg)
        } else if s == "GKV"@ {
            Some(CoverageType::Gkv)
        } else if s == "GPV"@ {
            Some(CoverageType::Gpv)
        } else if s == "PKV"@ {
            Some(CoverageType::Pkv)
        } else if s == "PPV"@ {
            Some(CoverageType::Ppv)
        } else if s == "SEL"@ {
            Some(CoverageType::Sel)
        } else if s == "SKT"@ {
            Some(CoverageType::Skt)
        } else if s == "SOZ"@ {
            Some(CoverageType::Soz)
        } else if s == "UNK"@ {
            Some(CoverageType::Unk)
        } else {
            None
        }
    }

    fn to_wire(&self) -> (r: &'static str) {
        match self {
            CoverageType::Bei => "BEI",
            CoverageType::Bg => "BG",
            CoverageType::Gkv => "GKV",
            CoverageType::Gpv => "GPV",
            CoverageType::Pkv => "PKV",
            CoverageType::Ppv => "PPV",
            CoverageType::Sel => "SEL",
            CoverageType::Skt => "SKT",
            CoverageType::Soz => "SOZ",
            CoverageType::Unk => "UNK",
        }
    }

    fn from_wire(s: &str) -> (r: Option<CoverageType>) {
        if str_eq(s, "BEI") {
            Some(CoverageType::Bei)
        } else if str_eq(s, "BG") {
            Some(CoverageType::Bg)
        } else if str_eq(s, "GKV") {
            Some(CoverageType::Gkv)
        } else if str_eq(s, "GPV") {
            Some(CoverageType::Gpv)
        } else if str_eq(s, "PKV") {
            Some(CoverageType::Pkv)
        } else if str_eq(s, "PPV") {
            Some(CoverageType::Ppv)
        } else if str_eq(s, "SEL") {
            Some(CoverageType::Sel)
        } else if str_eq(s, "SKT") {
            Some(CoverageType::Skt)
        } else if str_eq(s, "SOZ") {
            Some(CoverageType::Soz)
        } else if str_eq(s, "UNK") {
            Some(CoverageType::Unk)
        } else {
            None
        }
    }

    proof fn lemma_wire(self) {
        reveal_strlit("BEI");
        reveal_strlit("BG");
        reveal_strlit("GKV");
        reveal_strlit("GPV");
        reveal_strlit("PKV");
        reveal_strlit("PPV");
        reveal_strlit("SEL");
        reveal_strlit("SKT");
        reveal_strlit("SOZ");
        reveal_strlit("UNK");
        assert("BEI"@.len() == 3);
        assert("BG"@.len() == 2);
        assert("GKV"@.len() == 3);
        assert("GPV"@.len() == 3);
        assert("PKV"@.len() == 3);
        assert("PPV"@.len() == 3);
        assert("SEL"@.len() == 3);
        assert("SKT"@.len() == 3);
        assert("SOZ"@.len() == 3);
        assert("UNK"@.len() == 3);
        assert("BEI"@[0] == 'B' && "GKV"@[0] == 'G');
        assert("BEI"@[0] == 'B' && "GPV"@[0] == 'G');
        assert("BEI"@[0] == 'B' && "PKV"@[0] == 'P');
        assert("BEI"@[0] == 'B' && "PPV"@[0] == 'P');
        assert("BEI"@[0] == 'B' && "SEL"@[0] == 'S');
        assert("BEI"@[0] == 'B' && "SKT"@[0] == 'S');
        assert("BEI"@[0] == 'B' && "SOZ"@[0] == 'S');
        assert("BEI"@[0] == 'B' && "UNK"@[0] == 'U');
        assert("GKV"@[1] == 'K' && "GPV"@[1] == 'P');
        assert("GKV"@[0] == 'G' && "PKV"@[0] == 'P');
        assert("GKV"@[0] == 'G' && "PPV"@[0] == 'P');
        assert("GKV"@[0] == 'G' && "SEL"@[0] == 'S');
        assert("GKV"@[0] == 'G' && "SKT"@[0] == 'S');
        assert("GKV"@[0] == 'G' && "SOZ"@[0] == 'S');
        assert("GKV"@[0] == 'G' && "UNK"@[0] == 'U');
        assert("GPV"@[0] == 'G' && "PKV"@[0] == 'P');
        assert("GPV"@[0] == 'G' && "PPV"@[0] == 'P');
        assert("GPV"@[0] == 'G' && "SEL"@[0] == 'S');
        assert("GPV"@[0] == 'G' && "SKT"@[0] == 'S');
        assert("GPV"@[0] == 'G' && "SOZ"@[0] == 'S');
        assert("GPV"@[0] == 'G' && "UNK"@[0] == 'U');
        assert("PKV"@[1] == 'K' && "PPV"@[1] == 'P');
        assert("PKV"@[0] == 'P' && "SEL"@[0] == 'S');
        assert("PKV"@[0] == 'P' && "SKT"@[0] == 'S');
        assert("PKV"@[0] == 'P' && "SOZ"@[0] == 'S');
        assert("PKV"@[0] == 'P' && "UNK"@[0] == 'U');
        assert("PPV"@[0] == 'P' && "SEL"@[0] == 'S');
        assert("PPV"@[0] == 'P' && "SKT"@[0] == 'S');
        assert("PPV"@[0] == 'P' && "SOZ"@[0] == 'S');
        assert("PPV"@[0] == 'P' && "UNK"@[0] == 'U');
        assert("SEL"@[1] == 'E' && "SKT"@[1] == 'K');
        assert("SEL"@[1] == 'E' && "SOZ"@[1] == 'O');
        assert("SEL"@[0] == 'S' && "UNK"@[0] == 'U');
        assert("SKT"@[1] == 'K' && "SOZ"@[1] == 'O');
        assert("SKT"@[0] == 'S' && "UNK"@[0] == 'U');
        assert("SOZ"@[0] == 'S' && "UNK"@[0] == 'U');
        match self {
            CoverageType::Bei => {},
            CoverageType::Bg => {},
            CoverageType::Gkv => {},
            CoverageType::Gpv => {},
            CoverageType::Pkv => {},
            CoverageType::Ppv => {},
            CoverageType::Sel => {},
            CoverageType::Skt => {},
            CoverageType::Soz => {},
            CoverageType::Unk => {},
        }
    }

    proof fn lemma_parse(s: Seq<char>) {
    }
}

/// Type of the disease.
#[derive(Clone, Copy, Debug, PartialEq, Eq, Structural)]
pub enum DiseaseType {
    Hereditary,
    Oncological,
    Rare,
}

impl WireName for DiseaseType {
    open spec fn wire(self) -> Seq<char> {
        match self {
            DiseaseType::Hereditary => "hereditary"@,
            DiseaseType::Oncological => "oncological"@,
            DiseaseType::Rare => "rare"@,
        }
    }

    open spec fn parse_wire(s: Seq<char>) -> Option<DiseaseType> {
        if s == "hereditary"@ {
            Some(DiseaseType::Hereditary)
        } else if s == "oncological"@ {
            Some(DiseaseType::Oncological)
        } else if s == "rare"@ {
            Some(DiseaseType::Rare)
        } else {
            None
        }
    }

    fn to_wire(&self) -> (r: &'static str) {
        match self {
            DiseaseType::Hereditary => "hereditary",
            DiseaseType::Oncological => "oncological",
            DiseaseType::Rare => "rare",
        }
    }

    fn from_wire(s: &str) -> (r: Option<DiseaseType>) {
        if str_eq(s, "hereditary") {
            Some(DiseaseType::Hereditary)
        } else if str_eq(s, "oncological") {
            Some(DiseaseType::Oncological)
        } else if str_eq(s, "rare") {
            Some(DiseaseType::Rare)
        } else {
            None
        }
    }

    proof fn lemma_wire(self) {
        reveal_strlit("hereditary");
        reveal_strlit("oncological");
        reveal_strlit("rare");
        assert("hereditary"@.len() == 10);
        assert("oncological"@.len() == 11);
        assert("rare"@.len() == 4);
        match self {
            DiseaseType::Hereditary => {},
            DiseaseType::Oncological => {},
            DiseaseType::Rare => {},
        }
    }

    proof fn lemma_parse(s: Seq<char>) {
    }
}

/// Whether tumor and/or germline are tested.
#[derive(Clone, Copy, Debug, PartialEq, Eq, Structural)]
pub enum GenomicStudySubtype {
    GermlineOnly,
    TumorGermline,
    TumorOnly,
}

impl WireName for GenomicStudySubtype {
    open spec fn wire(self) -> Seq<char> {
        match self {
            GenomicStudySubtype::GermlineOnly => "germline-only"@,
            GenomicStudySubtype::TumorGermline => "tumor+germline"@,
            GenomicStudySubtype::TumorOnly => "tumor-only"@,
        }
    }

    open spec fn parse_wire(s: Seq<char>) -> Option<GenomicStudySubtype> {
        if s == "germline-only"@ {
            Some(GenomicStudySubtype::GermlineOnly)
        } else if s == "tumor+germline"@ {
            Some(GenomicStudySubtype::TumorGermline)
        } else if s == "tumor-only"@ {
            Some(GenomicStudySubtype::TumorOnly)
        } else {
            None
        }
    }

    fn to_wire(&self) -> (r: &'static str) {
        match self {
            GenomicStudySubtype::GermlineOnly => "germline-only",
            GenomicStudySubtype::TumorGermline => "tumor+germline",
            GenomicStudySubtype::TumorOnly => "tumor-only",
        }
    }

    fn from_wire(s: &str) -> (r: Option<GenomicStudySubtype>) {
        if str_eq(s, "germline-only") {
            Some(GenomicStudySubtype::GermlineOnly)
        } else if str_eq(s, "tumor+germline") {
            Some(GenomicStudySubtype::TumorGermline)
        } else if str_eq(s, "tumor-only") {
            Some(GenomicStudySubtype::TumorOnly)
        } else {
            None
        }
    }

    proof fn lemma_wire(self) {
        reveal_strlit("germline-only");
        reveal_strlit("tumor+germline");
        reveal_strlit("tumor-only");
        assert("germline-only"@.len() == 13);
        assert("tumor+germline"@.len() == 14);
        assert("tumor-only"@.len() == 10);
        match self {
            GenomicStudySubtype::GermlineOnly => {},
            GenomicStudySubtype::TumorGermline => {},
            GenomicStudySubtype::TumorOnly => {},
        }
    }

    proof fn lemma_parse(s: Seq<char>) {
    }
}

/// Whether additional persons are tested as well.
#[derive(Clone, Copy, Debug, PartialEq, Eq, Structural)]
pub enum GenomicStudyType {
    Duo,
    Single,
    Trio,
}

impl WireName for GenomicStudyType {
    open spec fn wire(self) -> Seq<char> {
        match self {
            GenomicStudyType::Duo => "duo"@,
            GenomicStudyType::Single => "single"@,
            GenomicStudyType::Trio => "trio"@,
        }
    }

    open spec fn parse_wire(s: Seq<char>) -> Option<GenomicStudyType> {
        if s == "duo"@ {
            Some(GenomicStudyType::Duo)
        } else if s == "single"@ {
            Some(GenomicStudyType::Single)
        } else if s == "trio"@ {
            Some(GenomicStudyType::Trio)
        } else {
            None
        }
    }

    fn to_wire(&self) -> (r: &'static str) {
        match self {
            GenomicStudyType::Duo => "duo",
            GenomicStudyType::Single => "single",
            GenomicStudyType::Trio => "trio",
        }
    }

    fn from_wire(s: &str) -> (r: Option<GenomicStudyType>) {
        if str_eq(s, "duo") {
            Some(GenomicStudyType::Duo)
        } else if str_eq(s, "single") {
            Some(GenomicStudyType::Single)
        } else if str_eq(s, "trio") {
            Some(GenomicStudyType::Trio)
        } else {
            None
        }
    }

    proof fn lemma_wire(self) {
        reveal_strlit("duo");
        reveal_strlit("single");
        reveal_strlit("trio");
        assert("duo"@.len() == 3);
        assert("single"@.len() == 6);
        assert("trio"@.len() == 4);
        match self {
            GenomicStudyType::Duo => {},
            GenomicStudyType::Single => {},
            GenomicStudyType::Trio => {},
        }
    }

    proof fn lemma_parse(s: Seq<char>) {
    }
}

/// Kind of submission.
#[derive(Clone, Copy, Debug, PartialEq, Eq, Structural)]
pub enum SubmissionType {
    Addition,
    Correction,
    Followup,
    Initial,
    Test,
}

impl WireName for SubmissionType {
    open spec fn wire(self) -> Seq<char> {
        match self {
            SubmissionType::Addition => "addition"@,
            SubmissionType::Correction => "correction"@,
            SubmissionType::Followup => "followup"@,
            SubmissionType::Initial => "initial"@,
            SubmissionType::Test => "test"@,
        }
    }

    open spec fn parse_wire(s: Seq<char>) -> Option<SubmissionType> {
        if s == "addition"@ {
            Some(SubmissionType::Addition)
        } else if s == "correction"@ {
            Some(SubmissionType::Correction)
        } else if s == "followup"@ {
            Some(SubmissionType::Followup)
        } else if s == "initial"@ {
            Some(SubmissionType::Initial)
        } else if s == "test"@ {
            Some(SubmissionType::Test)
        } else {
            None
        }
    }

    fn to_wire(&self) -> (r: &'static str) {
        match self {
            SubmissionType::Addition => "addition",
            SubmissionType::Correction => "correction",
            SubmissionType::Followup => "followup",
            SubmissionType::Initial => "initial",
            SubmissionType::Test => "test",
        }
    }

    fn from_wire(s: &str) -> (r: Option<SubmissionType>) {
        if str_eq(s, "addition") {
            Some(SubmissionType::Addition)
        } else if str_eq(s, "correction") {
            Some(SubmissionType::Correction)
        } else if str_eq(s, "followup") {
            Some(SubmissionType::Followup)
        } else if str_eq(s, "initial") {
            Some(SubmissionType::Initial)
        } else if str_eq(s, "test") {
            Some(SubmissionType::Test)
        } else {
            None
        }
    }

    proof fn lemma_wire(self) {
        reveal_strlit("addition");
        reveal_strlit("correction");
        reveal_strlit("followup");
        reveal_strlit("initial");
        reveal_strlit("test");
        assert("addition"@.len() == 8);
        assert("correction"@.len() == 10);
        assert("followup"@.len() == 8);
        assert("initial"@.len() == 7);
        assert("test"@.len() == 4);
        assert("addition"@[0] == 'a' && "followup"@[0] == 'f');
        match self {
            SubmissionType::Addition => {},
            SubmissionType::Correction => {},
            SubmissionType::Followup => {},
            SubmissionType::Initial => {},
            SubmissionType::Test => {},
        }
    }

    proof fn lemma_parse(s: Seq<char>) {
    }
}

/// General metadata of a submission to the genomic data repository.
pub struct Metadata {
    /// List of donors including the index patient.
    pub donors: Vec<Donor>,
    pub submission: Submission,
}

impl MemberNames for Metadata {
    open spec fn known_key(k: Seq<char>) -> bool {
        k == "donors"@
            || k == "submission"@
    }

    fn is_known_key(k: &str) -> (r: bool) {
        str_eq(k, "donors")
            || str_eq(k, "submission")
    }
}

impl Record for Metadata {
    open spec fn required_key(k: Seq<char>) -> bool {
        k == "donors"@
            || k == "submission"@
    }

    proof fn lemma_shape(j: JsonView, m: Self) {
        assert(Metadata::decodes(j, m));
        match j {
            JsonView::Object(_) => {},
            _ => {},
        }
    }

    open spec fn decodes(j: JsonView, m: Metadata) -> bool {
        match j {
            JsonView::Object(p) => {
                &&& keys_known::<Metadata>(p)
                &&& records_of::<Donor>(field(p, "donors"@), m.donors@)
                &&& record_of::<Submission>(field(p, "submission"@), m.submission)
            },
            _ => false,
        }
    }

    open spec fn json_of(self) -> JsonView {
        JsonView::Object(
            seq![
                ("donors"@, records_json(self.donors@)),
                ("submission"@, self.submission.json_of()),
            ],
        )
    }

    fn from_json(j: &Json) -> (r: Result<Metadata, SerdeError>) {
        match j {
            Json::Object(p) => {
                proof {
                    lemma_object_view(*p);
                }
                match check_keys::<Metadata>(p) {
                    Ok(()) => {},
                    Err(e) => return Err(e),
                }
                let donors = match get_records::<Donor>(p, "donors") {
                    Ok(v) => v,
                    Err(e) => return Err(e),
                };
                let submission = match get_record::<Submission>(p, "submission") {
                    Ok(v) => v,
                    Err(e) => return Err(e),
                };
                Ok(Metadata { donors, submission })
            },
            _ => Err(violation("expected an object for ", "Metadata")),
        }
    }

    fn to_json(&self) -> (r: Json) {
        let mut p: Vec<(String, Json)> = Vec::new();
        p.push(("donors".to_owned(), records_to_json(&self.donors)));
        p.push(("submission".to_owned(), self.submission.to_json()));
        proof {
            assert(members(p@) =~= seq![
                ("donors"@, records_json(self.donors@)),
                ("submission"@, self.submission.json_of()),
            ]);
        }
        proof {
            lemma_object_view(p);
        }
        Json::Object(p)
    }

    proof fn lemma_round_trip(self) {
        reveal_strlit("donors");
        reveal_strlit("submission");
        assert("donors"@.len() == 6);
        assert("submission"@.len() == 10);
        reveal_with_fuel(field, 3);
        let req = seq![
            ("donors"@, records_json(self.donors@)),
            ("submission"@, self.submission.json_of()),
        ];
        assert(self.json_of()->Object_0 == req);
        assert forall|i: int| 0 <= i < self.donors@.len() implies Donor::decodes(
            self.donors@.map_values(|x: Donor| x.json_of())[i],
            #[trigger] self.donors@[i],
        ) by {
            self.donors@[i].lemma_round_trip();
        }
        self.submission.lemma_round_trip();
    }
}

/// A sequenced individual: the index patient or a relative.
pub struct Donor {
    /// A unique identifier given by the Leistungserbringer for each donor of a single, duo or
    /// trio sequencing; the donorPseudonym needs to be identifiable by the Leistungserbringer in
    /// case of changes to the consents by one of the donors. For Index patient use index.
    pub donor_pseudonym: String,
    /// Gender of the donor.
    pub gender: Gender,
    /// Lab data related to the donor.
    pub lab_data: Vec<LabDatum>,
    pub mv_consent: MvConsent,
    /// Relationship of the donor in respect to the index patient, e.g. 'index', 'brother',
    /// 'mother', etc.
    pub relation: Relation,
    /// Research consents. Multiple declarations of consent are possible! Must be assigned to the
    /// respective data sets.
    pub research_consents: Vec<ResearchConsent>,
}

impl MemberNames for Donor {
    open spec fn known_key(k: Seq<char>) -> bool {
        k == "donorPseudonym"@
            || k == "gender"@
            || k == "labData"@
            || k == "mvConsent"@
            || k == "relation"@
            || k == "researchConsents"@
    }

    fn is_known_key(k: &str) -> (r: bool) {
        str_eq(k, "donorPseudonym")
            || str_eq(k, "gender")
            || str_eq(k, "labData")
            || str_eq(k, "mvConsent")
            || str_eq(k, "relation")
            || str_eq(k, "researchConsents")
    }
}

impl Record for Donor {
    open spec fn required_key(k: Seq<char>) -> bool {
        k == "donorPseudonym"@
            || k == "gender"@
            || k == "labData"@
            || k == "mvConsent"@
            || k == "relation"@
            || k == "researchConsents"@
    }

    proof fn lemma_shape(j: JsonView, m: Self) {
        assert(Donor::decodes(j, m));
        match j {
            JsonView::Object(_) => {},
            _ => {},
        }
    }

    open spec fn decodes(j: JsonView, m: Donor) -> bool {
        match j {
            JsonView::Object(p) => {
                &&& keys_known::<Donor>(p)
                &&& str_of(field(p, "donorPseudonym"@)) == Some(m.donor_pseudonym@)
                &&& enum_of::<Gender>(field(p, "gender"@)) == Some(m.gender)
                &&& records_of::<LabDatum>(field(p, "labData"@), m.lab_data@)
                &&& record_of::<MvConsent>(field(p, "mvConsent"@), m.mv_consent)
                &&& enum_of::<Relation>(field(p, "relation"@)) == Some(m.relation)
                &&& records_of::<ResearchConsent>(field(p, "researchConsents"@), m.research_consents@)
            },
            _ => false,
        }
    }

    open spec fn json_of(self) -> JsonView {
        JsonView::Object(
            seq![
                ("donorPseudonym"@, JsonView::Str(self.donor_pseudonym@)),
                ("gender"@, JsonView::Str(self.gender.wire())),
                ("labData"@, records_json(self.lab_data@)),
                ("mvConsent"@, self.mv_consent.json_of()),
                ("relation"@, JsonView::Str(self.relation.wire())),
                ("researchConsents"@, records_json(self.research_consents@)),
            ],
        )
    }

    fn from_json(j: &Json) -> (r: Result<Donor, SerdeError>) {
        match j {
            Json::Object(p) => {
                proof {
                    lemma_object_view(*p);
                }
                match check_keys::<Donor>(p) {
                    Ok(()) => {},
                    Err(e) => return Err(e),
                }
                let donor_pseudonym = match get_str(p, "donorPseudonym") {
                    Ok(v) => v,
                    Err(e) => return Err(e),
                };
                let gender = match get_enum::<Gender>(p, "gender") {
                    Ok(v) => v,
                    Err(e) => return Err(e),
                };
                let lab_data = match get_records::<LabDatum>(p, "labData") {
                    Ok(v) => v,
                    Err(e) => return Err(e),
                };
                let mv_consent = match get_record::<MvConsent>(p, "mvConsent") {
                    Ok(v) => v,
                    Err(e) => return Err(e),
                };
                let relation = match get_enum::<Relation>(p, "relation") {
                    Ok(v) => v,
                    Err(e) => return Err(e),
                };
                let research_consents = match get_records::<ResearchConsent>(p, "researchConsents") {
                    Ok(v) => v,
                    Err(e) => return Err(e),
                };
                Ok(Donor { donor_pseudonym, gender, lab_data, mv_consent, relation, research_consents })
            },
            _ => Err(violation("expected an object for ", "Donor")),
        }
    }

    fn to_json(&self) -> (r: Json) {
        let mut p: Vec<(String, Json)> = Vec::new();
        p.push(("donorPseudonym".to_owned(), Json::Str(self.donor_pseudonym.clone())));
        p.push(("gender".to_owned(), Json::Str(self.gender.to_wire().to_owned())));
        p.push(("labData".to_owned(), records_to_json(&self.lab_data)));
        p.push(("mvConsent".to_owned(), self.mv_consent.to_json()));
        p.push(("relation".to_owned(), Json::Str(self.relation.to_wire().to_owned())));
        p.push(("researchConsents".to_owned(), records_to_json(&self.research_consents)));
        proof {
            assert(members(p@) =~= seq![
                ("donorPseudonym"@, JsonView::Str(self.donor_pseudonym@)),
                ("gender"@, JsonView::Str(self.gender.wire())),
                ("labData"@, records_json(self.lab_data@)),
                ("mvConsent"@, self.mv_consent.json_of()),
                ("relation"@, JsonView::Str(self.relation.wire())),
                ("researchConsents"@, records_json(self.research_consents@)),
            ]);
        }
        proof {
            lemma_object_view(p);
        }
        Json::Object(p)
    }

    proof fn lemma_round_trip(self) {
        reveal_strlit("donorPseudonym");
        reveal_strlit("gender");
        reveal_strlit("labData");
        reveal_strlit("mvConsent");
        reveal_strlit("relation");
        reveal_strlit("researchConsents");
        assert("donorPseudonym"@.len() == 14);
        assert("gender"@.len() == 6);
        assert("labData"@.len() == 7);
        assert("mvConsent"@.len() == 9);
        assert("relation"@.len() == 8);
        assert("researchConsents"@.len() == 16);
        reveal_with_fuel(field, 7);
        let req = seq![
            ("donorPseudonym"@, JsonView::Str(self.donor_pseudonym@)),
            ("gender"@, JsonView::Str(self.gender.wire())),
            ("labData"@, records_json(self.lab_data@)),
            ("mvConsent"@, self.mv_consent.json_of()),
            ("relation"@, JsonView::Str(self.relation.wire())),
            ("researchConsents"@, records_json(self.research_consents@)),
        ];
        assert(self.json_of()->Object_0 == req);
        self.gender.lemma_wire();
        assert forall|i: int| 0 <= i < self.lab_data@.len() implies LabDatum::decodes(
            self.lab_data@.map_values(|x: LabDatum| x.json_of())[i],
            #[trigger] self.lab_data@[i],
        ) by {
            self.lab_data@[i].lemma_round_trip();
        }
        self.mv_consent.lemma_round_trip();
        self.relation.lemma_wire();
        assert forall|i: int| 0 <= i < self.research_consents@.len() implies ResearchConsent::decodes(
            self.research_consents@.map_values(|x: ResearchConsent| x.json_of())[i],
            #[trigger] self.research_consents@[i],
        ) by {
            self.research_consents@[i].lemma_round_trip();
        }
    }
}

/// One wet-lab dataset of a donor.
pub struct LabDatum {
    /// The barcode used or 'na'
    pub barcode: String,
    /// Name/version of the enrichment kit
    pub enrichment_kit_description: String,
    /// Manufacturer of the enrichment kit
    pub enrichment_kit_manufacturer: EnrichmentKitManufacturer,
    /// Fragmentation method
    pub fragmentation_method: FragmentationMethod,
    /// Sequencing kit manufacturer
    pub kit_manufacturer: String,
    /// Name/version of the sequencing kit
    pub kit_name: String,
    /// Name/ID of the biospecimen e.g. 'Blut DNA normal'
    pub lab_data_name: String,
    /// Name/version of the library prepkit
    pub library_prep_kit: String,
    /// Library prep kit manufacturer
    pub library_prep_kit_manufacturer: String,
    /// Library type
    pub library_type: LibraryType,
    /// Sample conservation
    pub sample_conservation: SampleConservation,
    /// Date of sample in ISO 8601 format YYYY-MM-DD
    pub sample_date: String,
    /// Sequence data generated from the wet lab experiment.
    pub sequence_data: Option<SequenceData>,
    /// Subtype of sequence (germline, somatic, etc.)
    pub sequence_subtype: SequenceSubtype,
    /// Type of sequence (DNA or RNA)
    pub sequence_type: SequenceType,
    /// Sequencer manufacturer
    pub sequencer_manufacturer: String,
    /// Name/version of the sequencer model
    pub sequencer_model: String,
    /// The sequencing layout, aka the end type of sequencing.
    pub sequencing_layout: SequencingLayout,
    pub tissue_ontology: TissueOntology,
    /// Tissue ID according to the ontology in use.
    pub tissue_type_id: String,
    /// Tissue name according to the ontology in use.
    pub tissue_type_name: String,
    /// Tuple of tumor cell counts and how they were determined.
    pub tumor_cell_count: Option<Vec<TumorCellCount>>,
}

impl MemberNames for LabDatum {
    open spec fn known_key(k: Seq<char>) -> bool {
        k == "barcode"@
            || k == "enrichmentKitDescription"@
            || k == "enrichmentKitManufacturer"@
            || k == "fragmentationMethod"@
            || k == "kitManufacturer"@
            || k == "kitName"@
            || k == "labDataName"@
            || k == "libraryPrepKit"@
            || k == "libraryPrepKitManufacturer"@
            || k == "libraryType"@
            || k == "sampleConservation"@
            || k == "sampleDate"@
            || k == "sequenceData"@
            || k == "sequenceSubtype"@
            || k == "sequenceType"@
            || k == "sequencerManufacturer"@
            || k == "sequencerModel"@
            || k == "sequencingLayout"@
            || k == "tissueOntology"@
            || k == "tissueTypeId"@
            || k == "tissueTypeName"@
            || k == "tumorCellCount"@
    }

    fn is_known_key(k: &str) -> (r: bool) {
        str_eq(k, "barcode")
            || str_eq(k, "enrichmentKitDescription")
            || str_eq(k, "enrichmentKitManufacturer")
            || str_eq(k, "fragmentationMethod")
            || str_eq(k, "kitManufacturer")
            || str_eq(k, "kitName")
            || str_eq(k, "labDataName")
            || str_eq(k, "libraryPrepKit")
            || str_eq(k, "libraryPrepKitManufacturer")
            || str_eq(k, "libraryType")
            || str_eq(k, "sampleConservation")
            || str_eq(k, "sampleDate")
            || str_eq(k, "sequenceData")
            || str_eq(k, "sequenceSubtype")
            || str_eq(k, "sequenceType")
            || str_eq(k, "sequencerManufacturer")
            || str_eq(k, "sequencerModel")
            || str_eq(k, "sequencingLayout")
            || str_eq(k, "tissueOntology")
            || str_eq(k, "tissueTypeId")
            || str_eq(k, "tissueTypeName")
            || str_eq(k, "tumorCellCount")
    }
}

impl Record for LabDatum {
    open spec fn required_key(k: Seq<char>) -> bool {
        k == "barcode"@
            || k == "enrichmentKitDescription"@
            || k == "enrichmentKitManufacturer"@
            || k == "fragmentationMethod"@
            || k == "kitManufacturer"@
            || k == "kitName"@
            || k == "labDataName"@
            || k == "libraryPrepKit"@
            || k == "libraryPrepKitManufacturer"@
            || k == "libraryType"@
            || k == "sampleConservation"@
            || k == "sampleDate"@
            || k == "sequenceSubtype"@
            || k == "sequenceType"@
            || k == "sequencerManufacturer"@
            || k == "sequencerModel"@
            || k == "sequencingLayout"@
            || k == "tissueOntology"@
            || k == "tissueTypeId"@
            || k == "tissueTypeName"@
    }

    proof fn lemma_shape(j: JsonView, m: Self) {
        assert(LabDatum::decodes(j, m));
        match j {
            JsonView::Object(_) => {},
            _ => {},
        }
    }

    open spec fn decodes(j: JsonView, m: LabDatum) -> bool {
        match j {
            JsonView::Object(p) => {
                &&& keys_known::<LabDatum>(p)
                &&& str_of(field(p, "barcode"@)) == Some(m.barcode@)
                &&& str_of(field(p, "enrichmentKitDescription"@)) == Some(m.enrichment_kit_description@)
                &&& enum_of::<EnrichmentKitManufacturer>(field(p, "enrichmentKitManufacturer"@)) == Some(m.enrichment_kit_manufacturer)
                &&& enum_of::<FragmentationMethod>(field(p, "fragmentationMethod"@)) == Some(m.fragmentation_method)
                &&& str_of(field(p, "kitManufacturer"@)) == Some(m.kit_manufacturer@)
                &&& str_of(field(p, "kitName"@)) == Some(m.kit_name@)
                &&& str_of(field(p, "labDataName"@)) == Some(m.lab_data_name@)
                &&& str_of(field(p, "libraryPrepKit"@)) == Some(m.library_prep_kit@)
                &&& str_of(field(p, "libraryPrepKitManufacturer"@)) == Some(m.library_prep_kit_manufacturer@)
                &&& enum_of::<LibraryType>(field(p, "libraryType"@)) == Some(m.library_type)
                &&& enum_of::<SampleConservation>(field(p, "sampleConservation"@)) == Some(m.sample_conservation)
                &&& str_of(field(p, "sampleDate"@)) == Some(m.sample_date@)
                &&& opt_record_of::<SequenceData>(field(p, "sequenceData"@), m.sequence_data)
                &&& enum_of::<SequenceSubtype>(field(p, "sequenceSubtype"@)) == Some(m.sequence_subtype)
                &&& enum_of::<SequenceType>(field(p, "sequenceType"@)) == Some(m.sequence_type)
                &&& str_of(field(p, "sequencerManufacturer"@)) == Some(m.sequencer_manufacturer@)
                &&& str_of(field(p, "sequencerModel"@)) == Some(m.sequencer_model@)
                &&& enum_of::<SequencingLayout>(field(p, "sequencingLayout"@)) == Some(m.sequencing_layout)
                &&& record_of::<TissueOntology>(field(p, "tissueOntology"@), m.tissue_ontology)
                &&& str_of(field(p, "tissueTypeId"@)) == Some(m.tissue_type_id@)
                &&& str_of(field(p, "tissueTypeName"@)) == Some(m.tissue_type_name@)
                &&& opt_records_of::<TumorCellCount>(field(p, "tumorCellCount"@), opt_seq(m.tumor_cell_count))
            },
            _ => false,
        }
    }

    open spec fn json_of(self) -> JsonView {
        JsonView::Object(
            seq![
                ("barcode"@, JsonView::Str(self.barcode@)),
                ("enrichmentKitDescription"@, JsonView::Str(self.enrichment_kit_description@)),
                ("enrichmentKitManufacturer"@, JsonView::Str(self.enrichment_kit_manufacturer.wire())),
                ("fragmentationMethod"@, JsonView::Str(self.fragmentation_method.wire())),
                ("kitManufacturer"@, JsonView::Str(self.kit_manufacturer@)),
                ("kitName"@, JsonView::Str(self.kit_name@)),
                ("labDataName"@, JsonView::Str(self.lab_data_name@)),
                ("libraryPrepKit"@, JsonView::Str(self.library_prep_kit@)),
                ("libraryPrepKitManufacturer"@, JsonView::Str(self.library_prep_kit_manufacturer@)),
                ("libraryType"@, JsonView::Str(self.library_type.wire())),
                ("sampleConservation"@, JsonView::Str(self.sample_conservation.wire())),
                ("sampleDate"@, JsonView::Str(self.sample_date@)),
                ("sequenceSubtype"@, JsonView::Str(self.sequence_subtype.wire())),
                ("sequenceType"@, JsonView::Str(self.sequence_type.wire())),
                ("sequencerManufacturer"@, JsonView::Str(self.sequencer_manufacturer@)),
                ("sequencerModel"@, JsonView::Str(self.sequencer_model@)),
                ("sequencingLayout"@, JsonView::Str(self.sequencing_layout.wire())),
                ("tissueOntology"@, self.tissue_ontology.json_of()),
                ("tissueTypeId"@, JsonView::Str(self.tissue_type_id@)),
                ("tissueTypeName"@, JsonView::Str(self.tissue_type_name@)),
            ]
            + opt_member("sequenceData"@, opt_record_json(self.sequence_data))
            + opt_member("tumorCellCount"@, opt_records_json(self.tumor_cell_count)),
        )
    }

    fn from_json(j: &Json) -> (r: Result<LabDatum, SerdeError>) {
        match j {
            Json::Object(p) => {
                proof {
                    lemma_object_view(*p);
                }
                match check_keys::<LabDatum>(p) {
                    Ok(()) => {},
                    Err(e) => return Err(e),
                }
                let barcode = match get_str(p, "barcode") {
                    Ok(v) => v,
                    Err(e) => return Err(e),
                };
                let enrichment_kit_description = match get_str(p, "enrichmentKitDescription") {
                    Ok(v) => v,
                    Err(e) => return Err(e),
                };
                let enrichment_kit_manufacturer = match get_enum::<EnrichmentKitManufacturer>(p, "enrichmentKitManufacturer") {
                    Ok(v) => v,
                    Err(e) => return Err(e),
                };
                let fragmentation_method = match get_enum::<FragmentationMethod>(p, "fragmentationMethod") {
                    Ok(v) => v,
                    Err(e) => return Err(e),
                };
                let kit_manufacturer = match get_str(p, "kitManufacturer") {
                    Ok(v) => v,
                    Err(e) => return Err(e),
                };
                let kit_name = match get_str(p, "kitName") {
                    Ok(v) => v,
                    Err(e) => return Err(e),
                };
                let lab_data_name = match get_str(p, "labDataName") {
                    Ok(v) => v,
                    Err(e) => return Err(e),
                };
                let library_prep_kit = match get_str(p, "libraryPrepKit") {
                    Ok(v) => v,
                    Err(e) => return Err(e),
                };
                let library_prep_kit_manufacturer = match get_str(p, "libraryPrepKitManufacturer") {
                    Ok(v) => v,
                    Err(e) => return Err(e),
                };
                let library_type = match get_enum::<LibraryType>(p, "libraryType") {
                    Ok(v) => v,
                    Err(e) => return Err(e),
                };
                let sample_conservation = match get_enum::<SampleConservation>(p, "sampleConservation") {
                    Ok(v) => v,
                    Err(e) => return Err(e),
                };
                let sample_date = match get_str(p, "sampleDate") {
                    Ok(v) => v,
                    Err(e) => return Err(e),
                };
                let sequence_data = match get_opt_record::<SequenceData>(p, "sequenceData") {
                    Ok(v) => v,
                    Err(e) => return Err(e),
                };
                let sequence_subtype = match get_enum::<SequenceSubtype>(p, "sequenceSubtype") {
                    Ok(v) => v,
                    Err(e) => return Err(e),
                };
                let sequence_type = match get_enum::<SequenceType>(p, "sequenceType") {
                    Ok(v) => v,
                    Err(e) => return Err(e),
                };
                let sequencer_manufacturer = match get_str(p, "sequencerManufacturer") {
                    Ok(v) => v,
                    Err(e) => return Err(e),
                };
                let sequencer_model = match get_str(p, "sequencerModel") {
                    Ok(v) => v,
                    Err(e) => return Err(e),
                };
                let sequencing_layout = match get_enum::<SequencingLayout>(p, "sequencingLayout") {
                    Ok(v) => v,
                    Err(e) => return Err(e),
                };
                let tissue_ontology = match get_record::<TissueOntology>(p, "tissueOntology") {
                    Ok(v) => v,
                    Err(e) => return Err(e),
                };
                let tissue_type_id = match get_str(p, "tissueTypeId") {
                    Ok(v) => v,
                    Err(e) => return Err(e),
                };
                let tissue_type_name = match get_str(p, "tissueTypeName") {
                    Ok(v) => v,
                    Err(e) => return Err(e),
                };
                let tumor_cell_count = match get_opt_records::<TumorCellCount>(p, "tumorCellCount") {
                    Ok(v) => v,
                    Err(e) => return Err(e),
                };
                Ok(LabDatum { barcode, enrichment_kit_description, enrichment_kit_manufacturer, fragmentation_method, kit_manufacturer, kit_name, lab_data_name, library_prep_kit, library_prep_kit_manufacturer, library_type, sample_conservation, sample_date, sequence_data, sequence_subtype, sequence_type, sequencer_manufacturer, sequencer_model, sequencing_layout, tissue_ontology, tissue_type_id, tissue_type_name, tumor_cell_count })
            },
            _ => Err(violation("expected an object for ", "LabDatum")),
        }
    }

    fn to_json(&self) -> (r: Json) {
        let mut p: Vec<(String, Json)> = Vec::new();
        p.push(("barcode".to_owned(), Json::Str(self.barcode.clone())));
        p.push(("enrichmentKitDescription".to_owned(), Json::Str(self.enrichment_kit_description.clone())));
        p.push(("enrichmentKitManufacturer".to_owned(), Json::Str(self.enrichment_kit_manufacturer.to_wire().to_owned())));
        p.push(("fragmentationMethod".to_owned(), Json::Str(self.fragmentation_method.to_wire().to_owned())));
        p.push(("kitManufacturer".to_owned(), Json::Str(self.kit_manufacturer.clone())));
        p.push(("kitName".to_owned(), Json::Str(self.kit_name.clone())));
        p.push(("labDataName".to_owned(), Json::Str(self.lab_data_name.clone())));
        p.push(("libraryPrepKit".to_owned(), Json::Str(self.library_prep_kit.clone())));
        p.push(("libraryPrepKitManufacturer".to_owned(), Json::Str(self.library_prep_kit_manufacturer.clone())));
        p.push(("libraryType".to_owned(), Json::Str(self.library_type.to_wire().to_owned())));
        p.push(("sampleConservation".to_owned(), Json::Str(self.sample_conservation.to_wire().to_owned())));
        p.push(("sampleDate".to_owned(), Json::Str(self.sample_date.clone())));
        p.push(("sequenceSubtype".to_owned(), Json::Str(self.sequence_subtype.to_wire().to_owned())));
        p.push(("sequenceType".to_owned(), Json::Str(self.sequence_type.to_wire().to_owned())));
        p.push(("sequencerManufacturer".to_owned(), Json::Str(self.sequencer_manufacturer.clone())));
        p.push(("sequencerModel".to_owned(), Json::Str(self.sequencer_model.clone())));
        p.push(("sequencingLayout".to_owned(), Json::Str(self.sequencing_layout.to_wire().to_owned())));
        p.push(("tissueOntology".to_owned(), self.tissue_ontology.to_json()));
        p.push(("tissueTypeId".to_owned(), Json::Str(self.tissue_type_id.clone())));
        p.push(("tissueTypeName".to_owned(), Json::Str(self.tissue_type_name.clone())));
        proof {
            assert(members(p@) =~= seq![
                ("barcode"@, JsonView::Str(self.barcode@)),
                ("enrichmentKitDescription"@, JsonView::Str(self.enrichment_kit_description@)),
                ("enrichmentKitManufacturer"@, JsonView::Str(self.enrichment_kit_manufacturer.wire())),
                ("fragmentationMethod"@, JsonView::Str(self.fragmentation_method.wire())),
                ("kitManufacturer"@, JsonView::Str(self.kit_manufacturer@)),
                ("kitName"@, JsonView::Str(self.kit_name@)),
                ("labDataName"@, JsonView::Str(self.lab_data_name@)),
                ("libraryPrepKit"@, JsonView::Str(self.library_prep_kit@)),
                ("libraryPrepKitManufacturer"@, JsonView::Str(self.library_prep_kit_manufacturer@)),
                ("libraryType"@, JsonView::Str(self.library_type.wire())),
                ("sampleConservation"@, JsonView::Str(self.sample_conservation.wire())),
                ("sampleDate"@, JsonView::Str(self.sample_date@)),
                ("sequenceSubtype"@, JsonView::Str(self.sequence_subtype.wire())),
                ("sequenceType"@, JsonView::Str(self.sequence_type.wire())),
                ("sequencerManufacturer"@, JsonView::Str(self.sequencer_manufacturer@)),
                ("sequencerModel"@, JsonView::Str(self.sequencer_model@)),
                ("sequencingLayout"@, JsonView::Str(self.sequencing_layout.wire())),
                ("tissueOntology"@, self.tissue_ontology.json_of()),
                ("tissueTypeId"@, JsonView::Str(self.tissue_type_id@)),
                ("tissueTypeName"@, JsonView::Str(self.tissue_type_name@)),
            ]);
        }
        let ghost before = p@;
        match &self.sequence_data {
            Some(x) => {
                let v = x.to_json();
                p.push(("sequenceData".to_owned(), v));
            },
            None => {},
        }
        proof {
            assert(members(p@) =~= members(before) + opt_member("sequenceData"@, opt_record_json(self.sequence_data)));
        }
        let ghost before = p@;
        match &self.tumor_cell_count {
            Some(x) => {
                let v = records_to_json(x);
                p.push(("tumorCellCount".to_owned(), v));
            },
            None => {},
        }
        proof {
            assert(members(p@) =~= members(before) + opt_member("tumorCellCount"@, opt_records_json(self.tumor_cell_count)));
        }
        proof {
            lemma_object_view(p);
        }
        Json::Object(p)
    }

    proof fn lemma_round_trip(self) {
        reveal_strlit("barcode");
        reveal_strlit("enrichmentKitDescription");
        reveal_strlit("enrichmentKitManufacturer");
        reveal_strlit("fragmentationMethod");
        reveal_strlit("kitManufacturer");
        reveal_strlit("kitName");
        reveal_strlit("labDataName");
        reveal_strlit("libraryPrepKit");
        reveal_strlit("libraryPrepKitManufacturer");
        reveal_strlit("libraryType");
        reveal_strlit("sampleConservation");
        reveal_strlit("sampleDate");
        reveal_strlit("sequenceData");
        reveal_strlit("sequenceSubtype");
        reveal_strlit("sequenceType");
        reveal_strlit("sequencerManufacturer");
        reveal_strlit("sequencerModel");
        reveal_strlit("sequencingLayout");
        reveal_strlit("tissueOntology");
        reveal_strlit("tissueTypeId");
        reveal_strlit("tissueTypeName");
        reveal_strlit("tumorCellCount");
        assert("barcode"@.len() == 7);
        assert("enrichmentKitDescription"@.len() == 24);
        assert("enrichmentKitManufacturer"@.len() == 25);
        assert("fragmentationMethod"@.len() == 19);
        assert("kitManufacturer"@.len() == 15);
        assert("kitName"@.len() == 7);
        assert("labDataName"@.len() == 11);
        assert("libraryPrepKit"@.len() == 14);
        assert("libraryPrepKitManufacturer"@.len() == 26);
        assert("libraryType"@.len() == 11);
        assert("sampleConservation"@.len() == 18);
        assert("sampleDate"@.len() == 10);
        assert("sequenceData"@.len() == 12);
        assert("sequenceSubtype"@.len() == 15);
        assert("sequenceType"@.len() == 12);
        assert("sequencerManufacturer"@.len() == 21);
        assert("sequencerModel"@.len() == 14);
        assert("sequencingLayout"@.len() == 16);
        assert("tissueOntology"@.len() == 14);
        assert("tissueTypeId"@.len() == 12);
        assert("tissueTypeName"@.len() == 14);
        assert("tumorCellCount"@.len() == 14);
        assert("barcode"@[0] == 'b' && "kitName"@[0] == 'k');
        assert("kitManufacturer"@[0] == 'k' && "sequenceSubtype"@[0] == 's');
        assert("labDataName"@[1] == 'a' && "libraryType"@[1] == 'i');
        assert("libraryPrepKit"@[0] == 'l' && "sequencerModel"@[0] == 's');
        assert("libraryPrepKit"@[0] == 'l' && "tissueOntology"@[0] == 't');
        assert("libraryPrepKit"@[0] == 'l' && "tissueTypeName"@[0] == 't');
        assert("libraryPrepKit"@[0] == 'l' && "tumorCellCount"@[0] == 't');
        assert("sequenceData"@[8] == 'D' && "sequenceType"@[8] == 'T');
        assert("sequenceData"@[0] == 's' && "tissueTypeId"@[0] == 't');
        assert("sequenceType"@[0] == 's' && "tissueTypeId"@[0] == 't');
        assert("sequencerModel"@[0] == 's' && "tissueOntology"@[0] == 't');
        assert("sequencerModel"@[0] == 's' && "tissueTypeName"@[0] == 't');
        assert("sequencerModel"@[0] == 's' && "tumorCellCount"@[0] == 't');
        assert("tissueOntology"@[6] == 'O' && "tissueTypeName"@[6] == 'T');
        assert("tissueOntology"@[1] == 'i' && "tumorCellCount"@[1] == 'u');
        assert("tissueTypeName"@[1] == 'i' && "tumorCellCount"@[1] == 'u');
        reveal_with_fuel(field, 7);
        let req = seq![
            ("barcode"@, JsonView::Str(self.barcode@)),
            ("enrichmentKitDescription"@, JsonView::Str(self.enrichment_kit_description@)),
            ("enrichmentKitManufacturer"@, JsonView::Str(self.enrichment_kit_manufacturer.wire())),
            ("fragmentationMethod"@, JsonView::Str(self.fragmentation_method.wire())),
            ("kitManufacturer"@, JsonView::Str(self.kit_manufacturer@)),
            ("kitName"@, JsonView::Str(self.kit_name@)),
            ("labDataName"@, JsonView::Str(self.lab_data_name@)),
            ("libraryPrepKit"@, JsonView::Str(self.library_prep_kit@)),
            ("libraryPrepKitManufacturer"@, JsonView::Str(self.library_prep_kit_manufacturer@)),
            ("libraryType"@, JsonView::Str(self.library_type.wire())),
            ("sampleConservation"@, JsonView::Str(self.sample_conservation.wire())),
            ("sampleDate"@, JsonView::Str(self.sample_date@)),
            ("sequenceSubtype"@, JsonView::Str(self.sequence_subtype.wire())),
            ("sequenceType"@, JsonView::Str(self.sequence_type.wire())),
            ("sequencerManufacturer"@, JsonView::Str(self.sequencer_manufacturer@)),
            ("sequencerModel"@, JsonView::Str(self.sequencer_model@)),
            ("sequencingLayout"@, JsonView::Str(self.sequencing_layout.wire())),
            ("tissueOntology"@, self.tissue_ontology.json_of()),
            ("tissueTypeId"@, JsonView::Str(self.tissue_type_id@)),
            ("tissueTypeName"@, JsonView::Str(self.tissue_type_name@)),
        ];
        let c0 = seq![
                ("barcode"@, JsonView::Str(self.barcode@)),
                ("enrichmentKitDescription"@, JsonView::Str(self.enrichment_kit_description@)),
                ("enrichmentKitManufacturer"@, JsonView::Str(self.enrichment_kit_manufacturer.wire())),
                ("fragmentationMethod"@, JsonView::Str(self.fragmentation_method.wire())),
                ("kitManufacturer"@, JsonView::Str(self.kit_manufacturer@)),
                ("kitName"@, JsonView::Str(self.kit_name@)),
            ];
        let c1 = seq![
                ("labDataName"@, JsonView::Str(self.lab_data_name@)),
                ("libraryPrepKit"@, JsonView::Str(self.library_prep_kit@)),
                ("libraryPrepKitManufacturer"@, JsonView::Str(self.library_prep_kit_manufacturer@)),
                ("libraryType"@, JsonView::Str(self.library_type.wire())),
                ("sampleConservation"@, JsonView::Str(self.sample_conservation.wire())),
                ("sampleDate"@, JsonView::Str(self.sample_date@)),
            ];
        let c2 = seq![
                ("sequenceSubtype"@, JsonView::Str(self.sequence_subtype.wire())),
                ("sequenceType"@, JsonView::Str(self.sequence_type.wire())),
                ("sequencerManufacturer"@, JsonView::Str(self.sequencer_manufacturer@)),
                ("sequencerModel"@, JsonView::Str(self.sequencer_model@)),
                ("sequencingLayout"@, JsonView::Str(self.sequencing_layout.wire())),
                ("tissueOntology"@, self.tissue_ontology.json_of()),
            ];
        let c3 = seq![
                ("tissueTypeId"@, JsonView::Str(self.tissue_type_id@)),
                ("tissueTypeName"@, JsonView::Str(self.tissue_type_name@)),
            ];
        let q0 = c0;
        let q1 = q0 + c1;
        let q2 = q1 + c2;
        let q3 = q2 + c3;
        assert(req =~= q3);
        lemma_field_concat(q2, c3, "barcode"@);
        lemma_field_concat(q1, c2, "barcode"@);
        lemma_field_concat(q0, c1, "barcode"@);
        lemma_field_concat(q2, c3, "enrichmentKitDescription"@);
        lemma_field_concat(q1, c2, "enrichmentKitDescription"@);
        lemma_field_concat(q0, c1, "enrichmentKitDescription"@);
        lemma_field_concat(q2, c3, "enrichmentKitManufacturer"@);
        lemma_field_concat(q1, c2, "enrichmentKitManufacturer"@);
        lemma_field_concat(q0, c1, "enrichmentKitManufacturer"@);
        lemma_field_concat(q2, c3, "fragmentationMethod"@);
        lemma_field_concat(q1, c2, "fragmentationMethod"@);
        lemma_field_concat(q0, c1, "fragmentationMethod"@);
        lemma_field_concat(q2, c3, "kitManufacturer"@);
        lemma_field_concat(q1, c2, "kitManufacturer"@);
        lemma_field_concat(q0, c1, "kitManufacturer"@);
        lemma_field_concat(q2, c3, "kitName"@);
        lemma_field_concat(q1, c2, "kitName"@);
        lemma_field_concat(q0, c1, "kitName"@);
        lemma_field_concat(q2, c3, "labDataName"@);
        lemma_field_concat(q1, c2, "labDataName"@);
        lemma_field_concat(q0, c1, "labDataName"@);
        lemma_field_concat(q2, c3, "libraryPrepKit"@);
        lemma_field_concat(q1, c2, "libraryPrepKit"@);
        lemma_field_concat(q0, c1, "libraryPrepKit"@);
        lemma_field_concat(q2, c3, "libraryPrepKitManufacturer"@);
        lemma_field_concat(q1, c2, "libraryPrepKitManufacturer"@);
        lemma_field_concat(q0, c1, "libraryPrepKitManufacturer"@);
        lemma_field_concat(q2, c3, "libraryType"@);
        lemma_field_concat(q1, c2, "libraryType"@);
        lemma_field_concat(q0, c1, "libraryType"@);
        lemma_field_concat(q2, c3, "sampleConservation"@);
        lemma_field_concat(q1, c2, "sampleConservation"@);
        lemma_field_concat(q0, c1, "sampleConservation"@);
        lemma_field_concat(q2, c3, "sampleDate"@);
        lemma_field_concat(q1, c2, "sampleDate"@);
        lemma_field_concat(q0, c1, "sampleDate"@);
        lemma_field_concat(q2, c3, "sequenceData"@);
        lemma_field_concat(q1, c2, "sequenceData"@);
        lemma_field_concat(q0, c1, "sequenceData"@);
        lemma_field_concat(q2, c3, "sequenceSubtype"@);
        lemma_field_concat(q1, c2, "sequenceSubtype"@);
        lemma_field_concat(q0, c1, "sequenceSubtype"@);
        lemma_field_concat(q2, c3, "sequenceType"@);
        lemma_field_concat(q1, c2, "sequenceType"@);
        lemma_field_concat(q0, c1, "sequenceType"@);
        lemma_field_concat(q2, c3, "sequencerManufacturer"@);
        lemma_field_concat(q1, c2, "sequencerManufacturer"@);
        lemma_field_concat(q0, c1, "sequencerManufacturer"@);
        lemma_field_concat(q2, c3, "sequencerModel"@);
        lemma_field_concat(q1, c2, "sequencerModel"@);
        lemma_field_concat(q0, c1, "sequencerModel"@);
        lemma_field_concat(q2, c3, "sequencingLayout"@);
        lemma_field_concat(q1, c2, "sequencingLayout"@);
        lemma_field_concat(q0, c1, "sequencingLayout"@);
        lemma_field_concat(q2, c3, "tissueOntology"@);
        lemma_field_concat(q1, c2, "tissueOntology"@);
        lemma_field_concat(q0, c1, "tissueOntology"@);
        lemma_field_concat(q2, c3, "tissueTypeId"@);
        lemma_field_concat(q1, c2, "tissueTypeId"@);
        lemma_field_concat(q0, c1, "tissueTypeId"@);
        lemma_field_concat(q2, c3, "tissueTypeName"@);
        lemma_field_concat(q1, c2, "tissueTypeName"@);
        lemma_field_concat(q0, c1, "tissueTypeName"@);
        lemma_field_concat(q2, c3, "tumorCellCount"@);
        lemma_field_concat(q1, c2, "tumorCellCount"@);
        lemma_field_concat(q0, c1, "tumorCellCount"@);
        let p0 = req;
        let o1 = opt_member("sequenceData"@, opt_record_json(self.sequence_data));
        let p1 = p0 + o1;
        let o2 = opt_member("tumorCellCount"@, opt_records_json(self.tumor_cell_count));
        let p2 = p1 + o2;
        assert(self.json_of()->Object_0 == p2);
        lemma_field_concat(p1, o2, "barcode"@);
        lemma_field_concat(p0, o1, "barcode"@);
        lemma_field_concat(p1, o2, "enrichmentKitDescription"@);
        lemma_field_concat(p0, o1, "enrichmentKitDescription"@);
        lemma_field_concat(p1, o2, "enrichmentKitManufacturer"@);
        lemma_field_concat(p0, o1, "enrichmentKitManufacturer"@);
        lemma_field_concat(p1, o2, "fragmentationMethod"@);
        lemma_field_concat(p0, o1, "fragmentationMethod"@);
        lemma_field_concat(p1, o2, "kitManufacturer"@);
        lemma_field_concat(p0, o1, "kitManufacturer"@);
        lemma_field_concat(p1, o2, "kitName"@);
        lemma_field_concat(p0, o1, "kitName"@);
        lemma_field_concat(p1, o2, "labDataName"@);
        lemma_field_concat(p0, o1, "labDataName"@);
        lemma_field_concat(p1, o2, "libraryPrepKit"@);
        lemma_field_concat(p0, o1, "libraryPrepKit"@);
        lemma_field_concat(p1, o2, "libraryPrepKitManufacturer"@);
        lemma_field_concat(p0, o1, "libraryPrepKitManufacturer"@);
        lemma_field_concat(p1, o2, "libraryType"@);
        lemma_field_concat(p0, o1, "libraryType"@);
        lemma_field_concat(p1, o2, "sampleConservation"@);
        lemma_field_concat(p0, o1, "sampleConservation"@);
        lemma_field_concat(p1, o2, "sampleDate"@);
        lemma_field_concat(p0, o1, "sampleDate"@);
        lemma_field_concat(p1, o2, "sequenceData"@);
        lemma_field_concat(p0, o1, "sequenceData"@);
        lemma_field_concat(p1, o2, "sequenceSubtype"@);
        lemma_field_concat(p0, o1, "sequenceSubtype"@);
        lemma_field_concat(p1, o2, "sequenceType"@);
        lemma_field_concat(p0, o1, "sequenceType"@);
        lemma_field_concat(p1, o2, "sequencerManufacturer"@);
        lemma_field_concat(p0, o1, "sequencerManufacturer"@);
        lemma_field_concat(p1, o2, "sequencerModel"@);
        lemma_field_concat(p0, o1, "sequencerModel"@);
        lemma_field_concat(p1, o2, "sequencingLayout"@);
        lemma_field_concat(p0, o1, "sequencingLayout"@);
        lemma_field_concat(p1, o2, "tissueOntology"@);
        lemma_field_concat(p0, o1, "tissueOntology"@);
        lemma_field_concat(p1, o2, "tissueTypeId"@);
        lemma_field_concat(p0, o1, "tissueTypeId"@);
        lemma_field_concat(p1, o2, "tissueTypeName"@);
        lemma_field_concat(p0, o1, "tissueTypeName"@);
        lemma_field_concat(p1, o2, "tumorCellCount"@);
        lemma_field_concat(p0, o1, "tumorCellCount"@);
        self.enrichment_kit_manufacturer.lemma_wire();
        self.fragmentation_method.lemma_wire();
        self.library_type.lemma_wire();
        self.sample_conservation.lemma_wire();
        match self.sequence_data {
            Some(x) => x.lemma_round_trip(),
            None => {},
        }
        self.sequence_subtype.lemma_wire();
        self.sequence_type.lemma_wire();
        self.sequencing_layout.lemma_wire();
        self.tissue_ontology.lemma_round_trip();
        match self.tumor_cell_count {
            Some(v) => {
                assert forall|i: int| 0 <= i < v@.len() implies TumorCellCount::decodes(
                    v@.map_values(|x: TumorCellCount| x.json_of())[i],
                    #[trigger] v@[i],
                ) by {
                    v@[i].lemma_round_trip();
                }
            },
            None => {},
        }
    }
}

/// Bioinformatics results of a lab datum.
pub struct SequenceData {
    /// Name of the bioinformatics pipeline used
    pub bioinformatics_pipeline_name: String,
    /// Version or commit hash of the bioinformatics pipeline
    pub bioinformatics_pipeline_version: String,
    /// Caller that is used in the pipeline
    pub caller_used: Vec<CallerUsed>,
    /// List of files generated and required in this analysis.
    pub files: Vec<File>,
    /// Mean depth of coverage
    pub mean_depth_of_coverage: JsonNumber,
    /// Minimum coverage
    pub min_coverage: JsonNumber,
    /// The analysis includes non-coding variants -> true or false
    pub non_coding_variants: bool,
    /// Percentage of bases with a specified minimum quality threshold, according to
    /// https://www.bfarm.de/SharedDocs/Downloads/DE/Forschung/modellvorhaben-genomsequenzierung/Qs-durch-GRZ.pdf?__blob=publicationFile
    pub percent_bases_above_quality_threshold: PercentBasesAboveQualityThreshold,
    /// Reference genome used according to the Genome Reference Consortium
    /// (https://www.ncbi.nlm.nih.gov/grc)
    pub reference_genome: ReferenceGenome,
    /// Fraction of targeted regions that are above minimum coverage
    pub targeted_regions_above_min_coverage: JsonNumber,
}

impl MemberNames for SequenceData {
    open spec fn known_key(k: Seq<char>) -> bool {
        k == "bioinformaticsPipelineName"@
            || k == "bioinformaticsPipelineVersion"@
            || k == "callerUsed"@
            || k == "files"@
            || k == "meanDepthOfCoverage"@
            || k == "minCoverage"@
            || k == "nonCodingVariants"@
            || k == "percentBasesAboveQualityThreshold"@
            || k == "referenceGenome"@
            || k == "targetedRegionsAboveMinCoverage"@
    }

    fn is_known_key(k: &str) -> (r: bool) {
        str_eq(k, "bioinformaticsPipelineName")
            || str_eq(k, "bioinformaticsPipelineVersion")
            || str_eq(k, "callerUsed")
            || str_eq(k, "files")
            || str_eq(k, "meanDepthOfCoverage")
            || str_eq(k, "minCoverage")
            || str_eq(k, "nonCodingVariants")
            || str_eq(k, "percentBasesAboveQualityThreshold")
            || str_eq(k, "referenceGenome")
            || str_eq(k, "targetedRegionsAboveMinCoverage")
    }
}

impl Record for SequenceData {
    open spec fn required_key(k: Seq<char>) -> bool {
        k == "bioinformaticsPipelineName"@
            || k == "bioinformaticsPipelineVersion"@
            || k == "callerUsed"@
            || k == "files"@
            || k == "meanDepthOfCoverage"@
            || k == "minCoverage"@
            || k == "nonCodingVariants"@
            || k == "percentBasesAboveQualityThreshold"@
            || k == "referenceGenome"@
            || k == "targetedRegionsAboveMinCoverage"@
    }

    proof fn lemma_shape(j: JsonView, m: Self) {
        assert(SequenceData::decodes(j, m));
        match j {
            JsonView::Object(_) => {},
            _ => {},
        }
    }

    open spec fn decodes(j: JsonView, m: SequenceData) -> bool {
        match j {
            JsonView::Object(p) => {
                &&& keys_known::<SequenceData>(p)
                &&& str_of(field(p, "bioinformaticsPipelineName"@)) == Some(m.bioinformatics_pipeline_name@)
                &&& str_of(field(p, "bioinformaticsPipelineVersion"@)) == Some(m.bioinformatics_pipeline_version@)
                &&& records_of::<CallerUsed>(field(p, "callerUsed"@), m.caller_used@)
                &&& records_of::<File>(field(p, "files"@), m.files@)
                &&& number_of(field(p, "meanDepthOfCoverage"@)) == Some(m.mean_depth_of_coverage@)
                &&& number_of(field(p, "minCoverage"@)) == Some(m.min_coverage@)
                &&& bool_of(field(p, "nonCodingVariants"@)) == Some(m.non_coding_variants)
                &&& record_of::<PercentBasesAboveQualityThreshold>(field(p, "percentBasesAboveQualityThreshold"@), m.percent_bases_above_quality_threshold)
                &&& enum_of::<ReferenceGenome>(field(p, "referenceGenome"@)) == Some(m.reference_genome)
                &&& number_of(field(p, "targetedRegionsAboveMinCoverage"@)) == Some(m.targeted_regions_above_min_coverage@)
            },
            _ => false,
        }
    }

    open spec fn json_of(self) -> JsonView {
        JsonView::Object(
            seq![
                ("bioinformaticsPipelineName"@, JsonView::Str(self.bioinformatics_pipeline_name@)),
                ("bioinformaticsPipelineVersion"@, JsonView::Str(self.bioinformatics_pipeline_version@)),
                ("callerUsed"@, records_json(self.caller_used@)),
                ("files"@, records_json(self.files@)),
                ("meanDepthOfCoverage"@, JsonView::Number(self.mean_depth_of_coverage@)),
                ("minCoverage"@, JsonView::Number(self.min_coverage@)),
                ("nonCodingVariants"@, JsonView::Bool(self.non_coding_variants)),
                ("percentBasesAboveQualityThreshold"@, self.percent_bases_above_quality_threshold.json_of()),
                ("referenceGenome"@, JsonView::Str(self.reference_genome.wire())),
                ("targetedRegionsAboveMinCoverage"@, JsonView::Number(self.targeted_regions_above_min_coverage@)),
            ],
        )
    }

    fn from_json(j: &Json) -> (r: Result<SequenceData, SerdeError>) {
        match j {
            Json::Object(p) => {
                proof {
                    lemma_object_view(*p);
                }
                match check_keys::<SequenceData>(p) {
                    Ok(()) => {},
                    Err(e) => return Err(e),
                }
                let bioinformatics_pipeline_name = match get_str(p, "bioinformaticsPipelineName") {
                    Ok(v) => v,
                    Err(e) => return Err(e),
                };
                let bioinformatics_pipeline_version = match get_str(p, "bioinformaticsPipelineVersion") {
                    Ok(v) => v,
                    Err(e) => return Err(e),
                };
                let caller_used = match get_records::<CallerUsed>(p, "callerUsed") {
                    Ok(v) => v,
                    Err(e) => return Err(e),
                };
                let files = match get_records::<File>(p, "files") {
                    Ok(v) => v,
                    Err(e) => return Err(e),
                };
                let mean_depth_of_coverage = match get_number(p, "meanDepthOfCoverage") {
                    Ok(v) => v,
                    Err(e) => return Err(e),
                };
                let min_coverage = match get_number(p, "minCoverage") {
                    Ok(v) => v,
                    Err(e) => return Err(e),
                };
                let non_coding_variants = match get_bool(p, "nonCodingVariants") {
                    Ok(v) => v,
                    Err(e) => return Err(e),
                };
                let percent_bases_above_quality_threshold = match get_record::<PercentBasesAboveQualityThreshold>(p, "percentBasesAboveQualityThreshold") {
                    Ok(v) => v,
                    Err(e) => return Err(e),
                };
                let reference_genome = match get_enum::<ReferenceGenome>(p, "referenceGenome") {
                    Ok(v) => v,
                    Err(e) => return Err(e),
                };
                let targeted_regions_above_min_coverage = match get_number(p, "targetedRegionsAboveMinCoverage") {
                    Ok(v) => v,
                    Err(e) => return Err(e),
                };
                Ok(SequenceData { bioinformatics_pipeline_name, bioinformatics_pipeline_version, caller_used, files, mean_depth_of_coverage, min_coverage, non_coding_variants, percent_bases_above_quality_threshold, reference_genome, targeted_regions_above_min_coverage })
            },
            _ => Err(violation("expected an object for ", "SequenceData")),
        }
    }

    fn to_json(&self) -> (r: Json) {
        let mut p: Vec<(String, Json)> = Vec::new();
        p.push(("bioinformaticsPipelineName".to_owned(), Json::Str(self.bioinformatics_pipeline_name.clone())));
        p.push(("bioinformaticsPipelineVersion".to_owned(), Json::Str(self.bioinformatics_pipeline_version.clone())));
        p.push(("callerUsed".to_owned(), records_to_json(&self.caller_used)));
        p.push(("files".to_owned(), records_to_json(&self.files)));
        p.push(("meanDepthOfCoverage".to_owned(), Json::Number(self.mean_depth_of_coverage.copy())));
        p.push(("minCoverage".to_owned(), Json::Number(self.min_coverage.copy())));
        p.push(("nonCodingVariants".to_owned(), Json::Bool(self.non_coding_variants)));
        p.push(("percentBasesAboveQualityThreshold".to_owned(), self.percent_bases_above_quality_threshold.to_json()));
        p.push(("referenceGenome".to_owned(), Json::Str(self.reference_genome.to_wire().to_owned())));
        p.push(("targetedRegionsAboveMinCoverage".to_owned(), Json::Number(self.targeted_regions_above_min_coverage.copy())));
        proof {
            assert(members(p@) =~= seq![
                ("bioinformaticsPipelineName"@, JsonView::Str(self.bioinformatics_pipeline_name@)),
                ("bioinformaticsPipelineVersion"@, JsonView::Str(self.bioinformatics_pipeline_version@)),
                ("callerUsed"@, records_json(self.caller_used@)),
                ("files"@, records_json(self.files@)),
                ("meanDepthOfCoverage"@, JsonView::Number(self.mean_depth_of_coverage@)),
                ("minCoverage"@, JsonView::Number(self.min_coverage@)),
                ("nonCodingVariants"@, JsonView::Bool(self.non_coding_variants)),
                ("percentBasesAboveQualityThreshold"@, self.percent_bases_above_quality_threshold.json_of()),
                ("referenceGenome"@, JsonView::Str(self.reference_genome.wire())),
                ("targetedRegionsAboveMinCoverage"@, JsonView::Number(self.targeted_regions_above_min_coverage@)),
            ]);
        }
        proof {
            lemma_object_view(p);
        }
        Json::Object(p)
    }

    proof fn lemma_round_trip(self) {
        reveal_strlit("bioinformaticsPipelineName");
        reveal_strlit("bioinformaticsPipelineVersion");
        reveal_strlit("callerUsed");
        reveal_strlit("files");
        reveal_strlit("meanDepthOfCoverage");
        reveal_strlit("minCoverage");
        reveal_strlit("nonCodingVariants");
        reveal_strlit("percentBasesAboveQualityThreshold");
        reveal_strlit("referenceGenome");
        reveal_strlit("targetedRegionsAboveMinCoverage");
        assert("bioinformaticsPipelineName"@.len() == 26);
        assert("bioinformaticsPipelineVersion"@.len() == 29);
        assert("callerUsed"@.len() == 10);
        assert("files"@.len() == 5);
        assert("meanDepthOfCoverage"@.len() == 19);
        assert("minCoverage"@.len() == 11);
        assert("nonCodingVariants"@.len() == 17);
        assert("percentBasesAboveQualityThreshold"@.len() == 33);
        assert("referenceGenome"@.len() == 15);
        assert("targetedRegionsAboveMinCoverage"@.len() == 31);
        reveal_with_fuel(field, 7);
        let req = seq![
            ("bioinformaticsPipelineName"@, JsonView::Str(self.bioinformatics_pipeline_name@)),
            ("bioinformaticsPipelineVersion"@, JsonView::Str(self.bioinformatics_pipeline_version@)),
            ("callerUsed"@, records_json(self.caller_used@)),
            ("files"@, records_json(self.files@)),
            ("meanDepthOfCoverage"@, JsonView::Number(self.mean_depth_of_coverage@)),
            ("minCoverage"@, JsonView::Number(self.min_coverage@)),
            ("nonCodingVariants"@, JsonView::Bool(self.non_coding_variants)),
            ("percentBasesAboveQualityThreshold"@, self.percent_bases_above_quality_threshold.json_of()),
            ("referenceGenome"@, JsonView::Str(self.reference_genome.wire())),
            ("targetedRegionsAboveMinCoverage"@, JsonView::Number(self.targeted_regions_above_min_coverage@)),
        ];
        let c0 = seq![
                ("bioinformaticsPipelineName"@, JsonView::Str(self.bioinformatics_pipeline_name@)),
                ("bioinformaticsPipelineVersion"@, JsonView::Str(self.bioinformatics_pipeline_version@)),
                ("callerUsed"@, records_json(self.caller_used@)),
                ("files"@, records_json(self.files@)),
                ("meanDepthOfCoverage"@, JsonView::Number(self.mean_depth_of_coverage@)),
                ("minCoverage"@, JsonView::Number(self.min_coverage@)),
            ];
        let c1 = seq![
                ("nonCodingVariants"@, JsonView::Bool(self.non_coding_variants)),
                ("percentBasesAboveQualityThreshold"@, self.percent_bases_above_quality_threshold.json_of()),
                ("referenceGenome"@, JsonView::Str(self.reference_genome.wire())),
                ("targetedRegionsAboveMinCoverage"@, JsonView::Number(self.targeted_regions_above_min_coverage@)),
            ];
        let q0 = c0;
        let q1 = q0 + c1;
        assert(req =~= q1);
        lemma_field_concat(q0, c1, "bioinformaticsPipelineName"@);
        lemma_field_concat(q0, c1, "bioinformaticsPipelineVersion"@);
        lemma_field_concat(q0, c1, "callerUsed"@);
        lemma_field_concat(q0, c1, "files"@);
        lemma_field_concat(q0, c1, "meanDepthOfCoverage"@);
        lemma_field_concat(q0, c1, "minCoverage"@);
        lemma_field_concat(q0, c1, "nonCodingVariants"@);
        lemma_field_concat(q0, c1, "percentBasesAboveQualityThreshold"@);
        lemma_field_concat(q0, c1, "referenceGenome"@);
        lemma_field_concat(q0, c1, "targetedRegionsAboveMinCoverage"@);
        assert(self.json_of()->Object_0 == req);
        assert forall|i: int| 0 <= i < self.caller_used@.len() implies CallerUsed::decodes(
            self.caller_used@.map_values(|x: CallerUsed| x.json_of())[i],
            #[trigger] self.caller_used@[i],
        ) by {
            self.caller_used@[i].lemma_round_trip();
        }
        assert forall|i: int| 0 <= i < self.files@.len() implies File::decodes(
            self.files@.map_values(|x: File| x.json_of())[i],
            #[trigger] self.files@[i],
        ) by {
            self.files@[i].lemma_round_trip();
        }
        self.percent_bases_above_quality_threshold.lemma_round_trip();
        self.reference_genome.lemma_wire();
    }
}

/// A variant caller used in the pipeline.
pub struct CallerUsed {
    /// Name of the caller used
    pub name: String,
    /// Version of the caller used
    pub version: String,
}

impl MemberNames for CallerUsed {
    open spec fn known_key(k: Seq<char>) -> bool {
        k == "name"@
            || k == "version"@
    }

    fn is_known_key(k: &str) -> (r: bool) {
        str_eq(k, "name")
            || str_eq(k, "version")
    }
}

impl Record for CallerUsed {
    open spec fn required_key(k: Seq<char>) -> bool {
        k == "name"@
            || k == "version"@
    }

    proof fn lemma_shape(j: JsonView, m: Self) {
        assert(CallerUsed::decodes(j, m));
        match j {
            JsonView::Object(_) => {},
            _ => {},
        }
    }

    open spec fn decodes(j: JsonView, m: CallerUsed) -> bool {
        match j {
            JsonView::Object(p) => {
                &&& keys_known::<CallerUsed>(p)
                &&& str_of(field(p, "name"@)) == Some(m.name@)
                &&& str_of(field(p, "version"@)) == Some(m.version@)
            },
            _ => false,
        }
    }

    open spec fn json_of(self) -> JsonView {
        JsonView::Object(
            seq![
                ("name"@, JsonView::Str(self.name@)),
                ("version"@, JsonView::Str(self.version@)),
            ],
        )
    }

    fn from_json(j: &Json) -> (r: Result<CallerUsed, SerdeError>) {
        match j {
            Json::Object(p) => {
                proof {
                    lemma_object_view(*p);
                }
                match check_keys::<CallerUsed>(p) {
                    Ok(()) => {},
                    Err(e) => return Err(e),
                }
                let name = match get_str(p, "name") {
                    Ok(v) => v,
                    Err(e) => return Err(e),
                };
                let version = match get_str(p, "version") {
                    Ok(v) => v,
                    Err(e) => return Err(e),
                };
                Ok(CallerUsed { name, version })
            },
            _ => Err(violation("expected an object for ", "CallerUsed")),
        }
    }

    fn to_json(&self) -> (r: Json) {
        let mut p: Vec<(String, Json)> = Vec::new();
        p.push(("name".to_owned(), Json::Str(self.name.clone())));
        p.push(("version".to_owned(), Json::Str(self.version.clone())));
        proof {
            assert(members(p@) =~= seq![
                ("name"@, JsonView::Str(self.name@)),
                ("version"@, JsonView::Str(self.version@)),
            ]);
        }
        proof {
            lemma_object_view(p);
        }
        Json::Object(p)
    }

    proof fn lemma_round_trip(self) {
        reveal_strlit("name");
        reveal_strlit("version");
        assert("name"@.len() == 4);
        assert("version"@.len() == 7);
        reveal_with_fuel(field, 3);
        let req = seq![
            ("name"@, JsonView::Str(self.name@)),
            ("version"@, JsonView::Str(self.version@)),
        ];
        assert(self.json_of()->Object_0 == req);
    }
}

/// A file generated and required in the analysis.
pub struct File {
    /// Type of checksum algorithm used
    pub checksum_type: Option<ChecksumType>,
    /// checksum of the file
    pub file_checksum: String,
    /// Path relative to the submission files directory, e.g.:
    /// 'patient_001/patient_001_dna.fastq.gz' if the file is located in <submission
    /// root>/files/patient_001/patient_001_dna.fastq.gz
    pub file_path: String,
    /// Size of the file in bytes
    pub file_size_in_bytes: JsonNumber,
    /// Type of the file; if BED file is submitted, only 1 file is allowed.
    pub file_type: FileType,
    /// Indicates the flow cell.
    pub flowcell_id: Option<String>,
    /// Indicates the lane
    pub lane_id: Option<String>,
    /// The read length; in the case of long-read sequencing it is the rounded average read
    /// length.
    pub read_length: Option<i64>,
    /// Indicates the read order for paired-end reads.
    pub read_order: Option<ReadOrder>,
}

impl MemberNames for File {
    open spec fn known_key(k: Seq<char>) -> bool {
        k == "checksumType"@
            || k == "fileChecksum"@
            || k == "filePath"@
            || k == "fileSizeInBytes"@
            || k == "fileType"@
            || k == "flowcellId"@
            || k == "laneId"@
            || k == "readLength"@
            || k == "readOrder"@
    }

    fn is_known_key(k: &str) -> (r: bool) {
        str_eq(k, "checksumType")
            || str_eq(k, "fileChecksum")
            || str_eq(k, "filePath")
            || str_eq(k, "fileSizeInBytes")
            || str_eq(k, "fileType")
            || str_eq(k, "flowcellId")
            || str_eq(k, "laneId")
            || str_eq(k, "readLength")
            || str_eq(k, "readOrder")
    }
}

impl Record for File {
    open spec fn required_key(k: Seq<char>) -> bool {
        k == "fileChecksum"@
            || k == "filePath"@
            || k == "fileSizeInBytes"@
            || k == "fileType"@
    }

    proof fn lemma_shape(j: JsonView, m: Self) {
        assert(File::decodes(j, m));
        match j {
            JsonView::Object(_) => {},
            _ => {},
        }
    }

    open spec fn decodes(j: JsonView, m: File) -> bool {
        match j {
            JsonView::Object(p) => {
                &&& keys_known::<File>(p)
                &&& opt_enum_of::<ChecksumType>(field(p, "checksumType"@)) == Some(m.checksum_type)
                &&& str_of(field(p, "fileChecksum"@)) == Some(m.file_checksum@)
                &&& str_of(field(p, "filePath"@)) == Some(m.file_path@)
                &&& number_of(field(p, "fileSizeInBytes"@)) == Some(m.file_size_in_bytes@)
                &&& enum_of::<FileType>(field(p, "fileType"@)) == Some(m.file_type)
                &&& opt_str_of(field(p, "flowcellId"@)) == Some(opt_view(m.flowcell_id))
                &&& opt_str_of(field(p, "laneId"@)) == Some(opt_view(m.lane_id))
                &&& opt_i64_of(field(p, "readLength"@)) == Some(m.read_length)
                &&& opt_enum_of::<ReadOrder>(field(p, "readOrder"@)) == Some(m.read_order)
            },
            _ => false,
        }
    }

    open spec fn json_of(self) -> JsonView {
        JsonView::Object(
            seq![
                ("fileChecksum"@, JsonView::Str(self.file_checksum@)),
                ("filePath"@, JsonView::Str(self.file_path@)),
                ("fileSizeInBytes"@, JsonView::Number(self.file_size_in_bytes@)),
                ("fileType"@, JsonView::Str(self.file_type.wire())),
            ]
            + opt_member("checksumType"@, opt_enum_json(self.checksum_type))
            + opt_member("flowcellId"@, opt_str_json(self.flowcell_id))
            + opt_member("laneId"@, opt_str_json(self.lane_id))
            + opt_member("readLength"@, opt_i64_json(self.read_length))
            + opt_member("readOrder"@, opt_enum_json(self.read_order)),
        )
    }

    fn from_json(j: &Json) -> (r: Result<File, SerdeError>) {
        match j {
            Json::Object(p) => {
                proof {
                    lemma_object_view(*p);
                }
                match check_keys::<File>(p) {
                    Ok(()) => {},
                    Err(e) => return Err(e),
                }
                let checksum_type = match get_opt_enum::<ChecksumType>(p, "checksumType") {
                    Ok(v) => v,
                    Err(e) => return Err(e),
                };
                let file_checksum = match get_str(p, "fileChecksum") {
                    Ok(v) => v,
                    Err(e) => return Err(e),
                };
                let file_path = match get_str(p, "filePath") {
                    Ok(v) => v,
                    Err(e) => return Err(e),
                };
                let file_size_in_bytes = match get_number(p, "fileSizeInBytes") {
                    Ok(v) => v,
                    Err(e) => return Err(e),
                };
                let file_type = match get_enum::<FileType>(p, "fileType") {
                    Ok(v) => v,
                    Err(e) => return Err(e),
                };
                let flowcell_id = match get_opt_str(p, "flowcellId") {
                    Ok(v) => v,
                    Err(e) => return Err(e),
                };
                let lane_id = match get_opt_str(p, "laneId") {
                    Ok(v) => v,
                    Err(e) => return Err(e),
                };
                let read_length = match get_opt_i64(p, "readLength") {
                    Ok(v) => v,
                    Err(e) => return Err(e),
                };
                let read_order = match get_opt_enum::<ReadOrder>(p, "readOrder") {
                    Ok(v) => v,
                    Err(e) => return Err(e),
                };
                Ok(File { checksum_type, file_checksum, file_path, file_size_in_bytes, file_type, flowcell_id, lane_id, read_length, read_order })
            },
            _ => Err(violation("expected an object for ", "File")),
        }
    }

    fn to_json(&self) -> (r: Json) {
        let mut p: Vec<(String, Json)> = Vec::new();
        p.push(("fileChecksum".to_owned(), Json::Str(self.file_checksum.clone())));
        p.push(("filePath".to_owned(), Json::Str(self.file_path.clone())));
        p.push(("fileSizeInBytes".to_owned(), Json::Number(self.file_size_in_bytes.copy())));
        p.push(("fileType".to_owned(), Json::Str(self.file_type.to_wire().to_owned())));
        proof {
            assert(members(p@) =~= seq![
                ("fileChecksum"@, JsonView::Str(self.file_checksum@)),
                ("filePath"@, JsonView::Str(self.file_path@)),
                ("fileSizeInBytes"@, JsonView::Number(self.file_size_in_bytes@)),
                ("fileType"@, JsonView::Str(self.file_type.wire())),
            ]);
        }
        let ghost before = p@;
        match &self.checksum_type {
            Some(x) => {
                let v = Json::Str(x.to_wire().to_owned());
                p.push(("checksumType".to_owned(), v));
            },
            None => {},
        }
        proof {
            assert(members(p@) =~= members(before) + opt_member("checksumType"@, opt_enum_json(self.checksum_type)));
        }
        let ghost before = p@;
        match &self.flowcell_id {
            Some(x) => {
                let v = Json::Str(x.clone());
                p.push(("flowcellId".to_owned(), v));
            },
            None => {},
        }
        proof {
            assert(members(p@) =~= members(before) + opt_member("flowcellId"@, opt_str_json(self.flowcell_id)));
        }
        let ghost before = p@;
        match &self.lane_id {
            Some(x) => {
                let v = Json::Str(x.clone());
                p.push(("laneId".to_owned(), v));
            },
            None => {},
        }
        proof {
            assert(members(p@) =~= members(before) + opt_member("laneId"@, opt_str_json(self.lane_id)));
        }
        let ghost before = p@;
        match &self.read_length {
            Some(x) => {
                let v = i64_to_json(*x);
                p.push(("readLength".to_owned(), v));
            },
            None => {},
        }
        proof {
            assert(members(p@) =~= members(before) + opt_member("readLength"@, opt_i64_json(self.read_length)));
        }
        let ghost before = p@;
        match &self.read_order {
            Some(x) => {
                let v = Json::Str(x.to_wire().to_owned());
                p.push(("readOrder".to_owned(), v));
            },
            None => {},
        }
        proof {
            assert(members(p@) =~= members(before) + opt_member("readOrder"@, opt_enum_json(self.read_order)));
        }
        proof {
            lemma_object_view(p);
        }
        Json::Object(p)
    }

    proof fn lemma_round_trip(self) {
        reveal_strlit("checksumType");
        reveal_strlit("fileChecksum");
        reveal_strlit("filePath");
        reveal_strlit("fileSizeInBytes");
        reveal_strlit("fileType");
        reveal_strlit("flowcellId");
        reveal_strlit("laneId");
        reveal_strlit("readLength");
        reveal_strlit("readOrder");
        assert("checksumType"@.len() == 12);
        assert("fileChecksum"@.len() == 12);
        assert("filePath"@.len() == 8);
        assert("fileSizeInBytes"@.len() == 15);
        assert("fileType"@.len() == 8);
        assert("flowcellId"@.len() == 10);
        assert("laneId"@.len() == 6);
        assert("readLength"@.len() == 10);
        assert("readOrder"@.len() == 9);
        assert("checksumType"@[0] == 'c' && "fileChecksum"@[0] == 'f');
        assert("filePath"@[4] == 'P' && "fileType"@[4] == 'T');
        assert("flowcellId"@[0] == 'f' && "readLength"@[0] == 'r');
        reveal_with_fuel(field, 5);
        let req = seq![
            ("fileChecksum"@, JsonView::Str(self.file_checksum@)),
            ("filePath"@, JsonView::Str(self.file_path@)),
            ("fileSizeInBytes"@, JsonView::Number(self.file_size_in_bytes@)),
            ("fileType"@, JsonView::Str(self.file_type.wire())),
        ];
        let p0 = req;
        let o1 = opt_member("checksumType"@, opt_enum_json(self.checksum_type));
        let p1 = p0 + o1;
        let o2 = opt_member("flowcellId"@, opt_str_json(self.flowcell_id));
        let p2 = p1 + o2;
        let o3 = opt_member("laneId"@, opt_str_json(self.lane_id));
        let p3 = p2 + o3;
        let o4 = opt_member("readLength"@, opt_i64_json(self.read_length));
        let p4 = p3 + o4;
        let o5 = opt_member("readOrder"@, opt_enum_json(self.read_order));
        let p5 = p4 + o5;
        assert(self.json_of()->Object_0 == p5);
        lemma_field_concat(p4, o5, "checksumType"@);
        lemma_field_concat(p3, o4, "checksumType"@);
        lemma_field_concat(p2, o3, "checksumType"@);
        lemma_field_concat(p1, o2, "checksumType"@);
        lemma_field_concat(p0, o1, "checksumType"@);
        lemma_field_concat(p4, o5, "fileChecksum"@);
        lemma_field_concat(p3, o4, "fileChecksum"@);
        lemma_field_concat(p2, o3, "fileChecksum"@);
        lemma_field_concat(p1, o2, "fileChecksum"@);
        lemma_field_concat(p0, o1, "fileChecksum"@);
        lemma_field_concat(p4, o5, "filePath"@);
        lemma_field_concat(p3, o4, "filePath"@);
        lemma_field_concat(p2, o3, "filePath"@);
        lemma_field_concat(p1, o2, "filePath"@);
        lemma_field_concat(p0, o1, "filePath"@);
        lemma_field_concat(p4, o5, "fileSizeInBytes"@);
        lemma_field_concat(p3, o4, "fileSizeInBytes"@);
        lemma_field_concat(p2, o3, "fileSizeInBytes"@);
        lemma_field_concat(p1, o2, "fileSizeInBytes"@);
        lemma_field_concat(p0, o1, "fileSizeInBytes"@);
        lemma_field_concat(p4, o5, "fileType"@);
        lemma_field_concat(p3, o4, "fileType"@);
        lemma_field_concat(p2, o3, "fileType"@);
        lemma_field_concat(p1, o2, "fileType"@);
        lemma_field_concat(p0, o1, "fileType"@);
        lemma_field_concat(p4, o5, "flowcellId"@);
        lemma_field_concat(p3, o4, "flowcellId"@);
        lemma_field_concat(p2, o3, "flowcellId"@);
        lemma_field_concat(p1, o2, "flowcellId"@);
        lemma_field_concat(p0, o1, "flowcellId"@);
        lemma_field_concat(p4, o5, "laneId"@);
        lemma_field_concat(p3, o4, "laneId"@);
        lemma_field_concat(p2, o3, "laneId"@);
        lemma_field_concat(p1, o2, "laneId"@);
        lemma_field_concat(p0, o1, "laneId"@);
        lemma_field_concat(p4, o5, "readLength"@);
        lemma_field_concat(p3, o4, "readLength"@);
        lemma_field_concat(p2, o3, "readLength"@);
        lemma_field_concat(p1, o2, "readLength"@);
        lemma_field_concat(p0, o1, "readLength"@);
        lemma_field_concat(p4, o5, "readOrder"@);
        lemma_field_concat(p3, o4, "readOrder"@);
        lemma_field_concat(p2, o3, "readOrder"@);
        lemma_field_concat(p1, o2, "readOrder"@);
        lemma_field_concat(p0, o1, "readOrder"@);
        match self.checksum_type {
            Some(x) => x.lemma_wire(),
            None => {},
        }
        self.file_type.lemma_wire();
        match self.read_order {
            Some(x) => x.lemma_wire(),
            None => {},
        }
    }
}

/// Percentage of bases that reach a minimum quality score.
pub struct PercentBasesAboveQualityThreshold {
    /// The minimum quality score threshold
    pub minimum_quality: JsonNumber,
    /// Percentage of bases that meet or exceed the minimum quality score
    pub percent: JsonNumber,
}

impl MemberNames for PercentBasesAboveQualityThreshold {
    open spec fn known_key(k: Seq<char>) -> bool {
        k == "minimumQuality"@
            || k == "percent"@
    }

    fn is_known_key(k: &str) -> (r: bool) {
        str_eq(k, "minimumQuality")
            || str_eq(k, "percent")
    }
}

impl Record for PercentBasesAboveQualityThreshold {
    open spec fn required_key(k: Seq<char>) -> bool {
        k == "minimumQuality"@
            || k == "percent"@
    }

    proof fn lemma_shape(j: JsonView, m: Self) {
        assert(PercentBasesAboveQualityThreshold::decodes(j, m));
        match j {
            JsonView::Object(_) => {},
            _ => {},
        }
    }

    open spec fn decodes(j: JsonView, m: PercentBasesAboveQualityThreshold) -> bool {
        match j {
            JsonView::Object(p) => {
                &&& keys_known::<PercentBasesAboveQualityThreshold>(p)
                &&& number_of(field(p, "minimumQuality"@)) == Some(m.minimum_quality@)
                &&& number_of(field(p, "percent"@)) == Some(m.percent@)
            },
            _ => false,
        }
    }

    open spec fn json_of(self) -> JsonView {
        JsonView::Object(
            seq![
                ("minimumQuality"@, JsonView::Number(self.minimum_quality@)),
                ("percent"@, JsonView::Number(self.percent@)),
            ],
        )
    }

    fn from_json(j: &Json) -> (r: Result<PercentBasesAboveQualityThreshold, SerdeError>) {
        match j {
            Json::Object(p) => {
                proof {
                    lemma_object_view(*p);
                }
                match check_keys::<PercentBasesAboveQualityThreshold>(p) {
                    Ok(()) => {},
                    Err(e) => return Err(e),
                }
                let minimum_quality = match get_number(p, "minimumQuality") {
                    Ok(v) => v,
                    Err(e) => return Err(e),
                };
                let percent = match get_number(p, "percent") {
                    Ok(v) => v,
                    Err(e) => return Err(e),
                };
                Ok(PercentBasesAboveQualityThreshold { minimum_quality, percent })
            },
            _ => Err(violation("expected an object for ", "PercentBasesAboveQualityThreshold")),
        }
    }

    fn to_json(&self) -> (r: Json) {
        let mut p: Vec<(String, Json)> = Vec::new();
        p.push(("minimumQuality".to_owned(), Json::Number(self.minimum_quality.copy())));
        p.push(("percent".to_owned(), Json::Number(self.percent.copy())));
        proof {
            assert(members(p@) =~= seq![
                ("minimumQuality"@, JsonView::Number(self.minimum_quality@)),
                ("percent"@, JsonView::Number(self.percent@)),
            ]);
        }
        proof {
            lemma_object_view(p);
        }
        Json::Object(p)
    }

    proof fn lemma_round_trip(self) {
        reveal_strlit("minimumQuality");
        reveal_strlit("percent");
        assert("minimumQuality"@.len() == 14);
        assert("percent"@.len() == 7);
        reveal_with_fuel(field, 3);
        let req = seq![
            ("minimumQuality"@, JsonView::Number(self.minimum_quality@)),
            ("percent"@, JsonView::Number(self.percent@)),
        ];
        assert(self.json_of()->Object_0 == req);
    }
}

/// The tissue ontology in use.
pub struct TissueOntology {
    /// Name of the tissue ontology
    pub name: String,
    /// Version of the tissue ontology
    pub version: String,
}

impl MemberNames for TissueOntology {
    open spec fn known_key(k: Seq<char>) -> bool {
        k == "name"@
            || k == "version"@
    }

    fn is_known_key(k: &str) -> (r: bool) {
        str_eq(k, "name")
            || str_eq(k, "version")
    }
}

impl Record for TissueOntology {
    open spec fn required_key(k: Seq<char>) -> bool {
        k == "name"@
            || k == "version"@
    }

    proof fn lemma_shape(j: JsonView, m: Self) {
        assert(TissueOntology::decodes(j, m));
        match j {
            JsonView::Object(_) => {},
            _ => {},
        }
    }

    open spec fn decodes(j: JsonView, m: TissueOntology) -> bool {
        match j {
            JsonView::Object(p) => {
                &&& keys_known::<TissueOntology>(p)
                &&& str_of(field(p, "name"@)) == Some(m.name@)
                &&& str_of(field(p, "version"@)) == Some(m.version@)
            },
            _ => false,
        }
    }

    open spec fn json_of(self) -> JsonView {
        JsonView::Object(
            seq![
                ("name"@, JsonView::Str(self.name@)),
                ("version"@, JsonView::Str(self.version@)),
            ],
        )
    }

    fn from_json(j: &Json) -> (r: Result<TissueOntology, SerdeError>) {
        match j {
            Json::Object(p) => {
                proof {
                    lemma_object_view(*p);
                }
                match check_keys::<TissueOntology>(p) {
                    Ok(()) => {},
                    Err(e) => return Err(e),
                }
                let name = match get_str(p, "name") {
                    Ok(v) => v,
                    Err(e) => return Err(e),
                };
                let version = match get_str(p, "version") {
                    Ok(v) => v,
                    Err(e) => return Err(e),
                };
                Ok(TissueOntology { name, version })
            },
            _ => Err(violation("expected an object for ", "TissueOntology")),
        }
    }

    fn to_json(&self) -> (r: Json) {
        let mut p: Vec<(String, Json)> = Vec::new();
        p.push(("name".to_owned(), Json::Str(self.name.clone())));
        p.push(("version".to_owned(), Json::Str(self.version.clone())));
        proof {
            assert(members(p@) =~= seq![
                ("name"@, JsonView::Str(self.name@)),
                ("version"@, JsonView::Str(self.version@)),
            ]);
        }
        proof {
            lemma_object_view(p);
        }
        Json::Object(p)
    }

    proof fn lemma_round_trip(self) {
        reveal_strlit("name");
        reveal_strlit("version");
        assert("name"@.len() == 4);
        assert("version"@.len() == 7);
        reveal_with_fuel(field, 3);
        let req = seq![
            ("name"@, JsonView::Str(self.name@)),
            ("version"@, JsonView::Str(self.version@)),
        ];
        assert(self.json_of()->Object_0 == req);
    }
}

/// A tumor cell count and how it was determined.
pub struct TumorCellCount {
    /// Tumor cell count in %
    pub count: JsonNumber,
    /// Method used to determine cell count.
    pub method: Method,
}

impl MemberNames for TumorCellCount {
    open spec fn known_key(k: Seq<char>) -> bool {
        k == "count"@
            || k == "method"@
    }

    fn is_known_key(k: &str) -> (r: bool) {
        str_eq(k, "count")
            || str_eq(k, "method")
    }
}

impl Record for TumorCellCount {
    open spec fn required_key(k: Seq<char>) -> bool {
        k == "count"@
            || k == "method"@
    }

    proof fn lemma_shape(j: JsonView, m: Self) {
        assert(TumorCellCount::decodes(j, m));
        match j {
            JsonView::Object(_) => {},
            _ => {},
        }
    }

    open spec fn decodes(j: JsonView, m: TumorCellCount) -> bool {
        match j {
            JsonView::Object(p) => {
                &&& keys_known::<TumorCellCount>(p)
                &&& number_of(field(p, "count"@)) == Some(m.count@)
                &&& enum_of::<Method>(field(p, "method"@)) == Some(m.method)
            },
            _ => false,
        }
    }

    open spec fn json_of(self) -> JsonView {
        JsonView::Object(
            seq![
                ("count"@, JsonView::Number(self.count@)),
                ("method"@, JsonView::Str(self.method.wire())),
            ],
        )
    }

    fn from_json(j: &Json) -> (r: Result<TumorCellCount, SerdeError>) {
        match j {
            Json::Object(p) => {
                proof {
                    lemma_object_view(*p);
                }
                match check_keys::<TumorCellCount>(p) {
                    Ok(()) => {},
                    Err(e) => return Err(e),
                }
                let count = match get_number(p, "count") {
                    Ok(v) => v,
                    Err(e) => return Err(e),
                };
                let method = match get_enum::<Method>(p, "method") {
                    Ok(v) => v,
                    Err(e) => return Err(e),
                };
                Ok(TumorCellCount { count, method })
            },
            _ => Err(violation("expected an object for ", "TumorCellCount")),
        }
    }

    fn to_json(&self) -> (r: Json) {
        let mut p: Vec<(String, Json)> = Vec::new();
        p.push(("count".to_owned(), Json::Number(self.count.copy())));
        p.push(("method".to_owned(), Json::Str(self.method.to_wire().to_owned())));
        proof {
            assert(members(p@) =~= seq![
                ("count"@, JsonView::Number(self.count@)),
                ("method"@, JsonView::Str(self.method.wire())),
            ]);
        }
        proof {
            lemma_object_view(p);
        }
        Json::Object(p)
    }

    proof fn lemma_round_trip(self) {
        reveal_strlit("count");
        reveal_strlit("method");
        assert("count"@.len() == 5);
        assert("method"@.len() == 6);
        reveal_with_fuel(field, 3);
        let req = seq![
            ("count"@, JsonView::Number(self.count@)),
            ("method"@, JsonView::Str(self.method.wire())),
        ];
        assert(self.json_of()->Object_0 == req);
        self.method.lemma_wire();
    }
}

/// Consent to the model project.
pub struct MvConsent {
    /// Date of delivery. Date (in ISO 8601 format YYYY-MM-DD) on which the Model Project
    /// Declaration of Participation was presented to the patient, unless identical to the date
    /// of signature
    pub presentation_date: Option<String>,
    /// Modules of the consent to MV: must have at least a permit of mvSequencing
    pub scope: Vec<Scope>,
    /// Version of the declaration of participation. Name and version of the declaration of
    /// participation in the MV GenomSeq, e.g.: 'Patient Info TE Consent MVGenomSeq vers01'
    pub version: String,
}

impl MemberNames for MvConsent {
    open spec fn known_key(k: Seq<char>) -> bool {
        k == "presentationDate"@
            || k == "scope"@
            || k == "version"@
    }

    fn is_known_key(k: &str) -> (r: bool) {
        str_eq(k, "presentationDate")
            || str_eq(k, "scope")
            || str_eq(k, "version")
    }
}

impl Record for MvConsent {
    open spec fn required_key(k: Seq<char>) -> bool {
        k == "scope"@
            || k == "version"@
    }

    proof fn lemma_shape(j: JsonView, m: Self) {
        assert(MvConsent::decodes(j, m));
        match j {
            JsonView::Object(_) => {},
            _ => {},
        }
    }

    open spec fn decodes(j: JsonView, m: MvConsent) -> bool {
        match j {
            JsonView::Object(p) => {
                &&& keys_known::<MvConsent>(p)
                &&& opt_str_of(field(p, "presentationDate"@)) == Some(opt_view(m.presentation_date))
                &&& records_of::<Scope>(field(p, "scope"@), m.scope@)
                &&& str_of(field(p, "version"@)) == Some(m.version@)
            },
            _ => false,
        }
    }

    open spec fn json_of(self) -> JsonView {
        JsonView::Object(
            seq![
                ("scope"@, records_json(self.scope@)),
                ("version"@, JsonView::Str(self.version@)),
            ]
            + opt_member("presentationDate"@, opt_str_json(self.presentation_date)),
        )
    }

    fn from_json(j: &Json) -> (r: Result<MvConsent, SerdeError>) {
        match j {
            Json::Object(p) => {
                proof {
                    lemma_object_view(*p);
                }
                match check_keys::<MvConsent>(p) {
                    Ok(()) => {},
                    Err(e) => return Err(e),
                }
                let presentation_date = match get_opt_str(p, "presentationDate") {
                    Ok(v) => v,
                    Err(e) => return Err(e),
                };
                let scope = match get_records::<Scope>(p, "scope") {
                    Ok(v) => v,
                    Err(e) => return Err(e),
                };
                let version = match get_str(p, "version") {
                    Ok(v) => v,
                    Err(e) => return Err(e),
                };
                Ok(MvConsent { presentation_date, scope, version })
            },
            _ => Err(violation("expected an object for ", "MvConsent")),
        }
    }

    fn to_json(&self) -> (r: Json) {
        let mut p: Vec<(String, Json)> = Vec::new();
        p.push(("scope".to_owned(), records_to_json(&self.scope)));
        p.push(("version".to_owned(), Json::Str(self.version.clone())));
        proof {
            assert(members(p@) =~= seq![
                ("scope"@, records_json(self.scope@)),
                ("version"@, JsonView::Str(self.version@)),
            ]);
        }
        let ghost before = p@;
        match &self.presentation_date {
            Some(x) => {
                let v = Json::Str(x.clone());
                p.push(("presentationDate".to_owned(), v));
            },
            None => {},
        }
        proof {
            assert(members(p@) =~= members(before) + opt_member("presentationDate"@, opt_str_json(self.presentation_date)));
        }
        proof {
            lemma_object_view(p);
        }
        Json::Object(p)
    }

    proof fn lemma_round_trip(self) {
        reveal_strlit("presentationDate");
        reveal_strlit("scope");
        reveal_strlit("version");
        assert("presentationDate"@.len() == 16);
        assert("scope"@.len() == 5);
        assert("version"@.len() == 7);
        reveal_with_fuel(field, 3);
        let req = seq![
            ("scope"@, records_json(self.scope@)),
            ("version"@, JsonView::Str(self.version@)),
        ];
        let p0 = req;
        let o1 = opt_member("presentationDate"@, opt_str_json(self.presentation_date));
        let p1 = p0 + o1;
        assert(self.json_of()->Object_0 == p1);
        lemma_field_concat(p0, o1, "presentationDate"@);
        lemma_field_concat(p0, o1, "scope"@);
        lemma_field_concat(p0, o1, "version"@);
        assert forall|i: int| 0 <= i < self.scope@.len() implies Scope::decodes(
            self.scope@.map_values(|x: Scope| x.json_of())[i],
            #[trigger] self.scope@[i],
        ) by {
            self.scope@[i].lemma_round_trip();
        }
    }
}

/// One declaration of consent or refusal for a domain.
pub struct Scope {
    /// Date of signature of the pilot projects consent; in ISO 8601 format YYYY-MM-DD.
    pub date: String,
    /// Scope of consent or revocation.
    pub domain: Domain,
    /// Consent or refusal to participate and consent, must be indicated for each option listed
    /// in the scope of consent.
    pub scope_type: Type,
}

impl MemberNames for Scope {
    open spec fn known_key(k: Seq<char>) -> bool {
        k == "date"@
            || k == "domain"@
            || k == "type"@
    }

    fn is_known_key(k: &str) -> (r: bool) {
        str_eq(k, "date")
            || str_eq(k, "domain")
            || str_eq(k, "type")
    }
}

impl Record for Scope {
    open spec fn required_key(k: Seq<char>) -> bool {
        k == "date"@
            || k == "domain"@
            || k == "type"@
    }

    proof fn lemma_shape(j: JsonView, m: Self) {
        assert(Scope::decodes(j, m));
        match j {
            JsonView::Object(_) => {},
            _ => {},
        }
    }

    open spec fn decodes(j: JsonView, m: Scope) -> bool {
        match j {
            JsonView::Object(p) => {
                &&& keys_known::<Scope>(p)
                &&& str_of(field(p, "date"@)) == Some(m.date@)
                &&& enum_of::<Domain>(field(p, "domain"@)) == Some(m.domain)
                &&& enum_of::<Type>(field(p, "type"@)) == Some(m.scope_type)
            },
            _ => false,
        }
    }

    open spec fn json_of(self) -> JsonView {
        JsonView::Object(
            seq![
                ("date"@, JsonView::Str(self.date@)),
                ("domain"@, JsonView::Str(self.domain.wire())),
                ("type"@, JsonView::Str(self.scope_type.wire())),
            ],
        )
    }

    fn from_json(j: &Json) -> (r: Result<Scope, SerdeError>) {
        match j {
            Json::Object(p) => {
                proof {
                    lemma_object_view(*p);
                }
                match check_keys::<Scope>(p) {
                    Ok(()) => {},
                    Err(e) => return Err(e),
                }
                let date = match get_str(p, "date") {
                    Ok(v) => v,
                    Err(e) => return Err(e),
                };
                let domain = match get_enum::<Domain>(p, "domain") {
                    Ok(v) => v,
                    Err(e) => return Err(e),
                };
                let scope_type = match get_enum::<Type>(p, "type") {
                    Ok(v) => v,
                    Err(e) => return Err(e),
                };
                Ok(Scope { date, domain, scope_type })
            },
            _ => Err(violation("expected an object for ", "Scope")),
        }
    }

    fn to_json(&self) -> (r: Json) {
        let mut p: Vec<(String, Json)> = Vec::new();
        p.push(("date".to_owned(), Json::Str(self.date.clone())));
        p.push(("domain".to_owned(), Json::Str(self.domain.to_wire().to_owned())));
        p.push(("type".to_owned(), Json::Str(self.scope_type.to_wire().to_owned())));
        proof {
            assert(members(p@) =~= seq![
                ("date"@, JsonView::Str(self.date@)),
                ("domain"@, JsonView::Str(self.domain.wire())),
                ("type"@, JsonView::Str(self.scope_type.wire())),
            ]);
        }
        proof {
            lemma_object_view(p);
        }
        Json::Object(p)
    }

    proof fn lemma_round_trip(self) {
        reveal_strlit("date");
        reveal_strlit("domain");
        reveal_strlit("type");
        assert("date"@.len() == 4);
        assert("domain"@.len() == 6);
        assert("type"@.len() == 4);
        assert("date"@[0] == 'd' && "type"@[0] == 't');
        reveal_with_fuel(field, 4);
        let req = seq![
            ("date"@, JsonView::Str(self.date@)),
            ("domain"@, JsonView::Str(self.domain.wire())),
            ("type"@, JsonView::Str(self.scope_type.wire())),
        ];
        assert(self.json_of()->Object_0 == req);
        self.domain.lemma_wire();
        self.scope_type.lemma_wire();
    }
}

/// A declaration of research consent.
pub struct ResearchConsent {
    /// Justification if no scope object is present.
    pub no_scope_justification: Option<NoScopeJustification>,
    /// Date of the delivery of the research consent in ISO 8601 format (YYYY-MM-DD)
    pub presentation_date: String,
    /// Schema version of de.medizininformatikinitiative.kerndatensatz.consent
    pub schema_version: Option<SchemaVersion>,
    /// Scope of the research consent in JSON format following the MII IG Consent v2025 FHIR
    /// schema. See
    /// 'https://www.medizininformatik-initiative.de/Kerndatensatz/KDS_Consent_V2025/MII-IG-Modul-Consent.html'
    /// and
    /// 'https://packages2.fhir.org/packages/de.medizininformatikinitiative.kerndatensatz.consent'.
    /// Each member holds a document as it stands; an explicit null is kept.
    pub scope: Option<Vec<(String, Json)>>,
}

impl MemberNames for ResearchConsent {
    open spec fn known_key(k: Seq<char>) -> bool {
        k == "noScopeJustification"@
            || k == "presentationDate"@
            || k == "schemaVersion"@
            || k == "scope"@
    }

    fn is_known_key(k: &str) -> (r: bool) {
        str_eq(k, "noScopeJustification")
            || str_eq(k, "presentationDate")
            || str_eq(k, "schemaVersion")
            || str_eq(k, "scope")
    }
}

impl Record for ResearchConsent {
    open spec fn required_key(k: Seq<char>) -> bool {
        k == "presentationDate"@
    }

    proof fn lemma_shape(j: JsonView, m: Self) {
        assert(ResearchConsent::decodes(j, m));
        match j {
            JsonView::Object(_) => {},
            _ => {},
        }
    }

    open spec fn decodes(j: JsonView, m: ResearchConsent) -> bool {
        match j {
            JsonView::Object(p) => {
                &&& keys_known::<ResearchConsent>(p)
                &&& opt_enum_of::<NoScopeJustification>(field(p, "noScopeJustification"@)) == Some(m.no_scope_justification)
                &&& str_of(field(p, "presentationDate"@)) == Some(m.presentation_date@)
                &&& opt_enum_of::<SchemaVersion>(field(p, "schemaVersion"@)) == Some(m.schema_version)
                &&& opt_object_of(field(p, "scope"@)) == Some(opt_members(m.scope))
            },
            _ => false,
        }
    }

    open spec fn json_of(self) -> JsonView {
        JsonView::Object(
            seq![
                ("presentationDate"@, JsonView::Str(self.presentation_date@)),
            ]
            + opt_member("noScopeJustification"@, opt_enum_json(self.no_scope_justification))
            + opt_member("schemaVersion"@, opt_enum_json(self.schema_version))
            + opt_member("scope"@, opt_object_json(self.scope)),
        )
    }

    fn from_json(j: &Json) -> (r: Result<ResearchConsent, SerdeError>) {
        match j {
            Json::Object(p) => {
                proof {
                    lemma_object_view(*p);
                }
                match check_keys::<ResearchConsent>(p) {
                    Ok(()) => {},
                    Err(e) => return Err(e),
                }
                let no_scope_justification = match get_opt_enum::<NoScopeJustification>(p, "noScopeJustification") {
                    Ok(v) => v,
                    Err(e) => return Err(e),
                };
                let presentation_date = match get_str(p, "presentationDate") {
                    Ok(v) => v,
                    Err(e) => return Err(e),
                };
                let schema_version = match get_opt_enum::<SchemaVersion>(p, "schemaVersion") {
                    Ok(v) => v,
                    Err(e) => return Err(e),
                };
                let scope = match get_opt_object(p, "scope") {
                    Ok(v) => v,
                    Err(e) => return Err(e),
                };
                Ok(ResearchConsent { no_scope_justification, presentation_date, schema_version, scope })
            },
            _ => Err(violation("expected an object for ", "ResearchConsent")),
        }
    }

    fn to_json(&self) -> (r: Json) {
        let mut p: Vec<(String, Json)> = Vec::new();
        p.push(("presentationDate".to_owned(), Json::Str(self.presentation_date.clone())));
        proof {
            assert(members(p@) =~= seq![
                ("presentationDate"@, JsonView::Str(self.presentation_date@)),
            ]);
        }
        let ghost before = p@;
        match &self.no_scope_justification {
            Some(x) => {
                let v = Json::Str(x.to_wire().to_owned());
                p.push(("noScopeJustification".to_owned(), v));
            },
            None => {},
        }
        proof {
            assert(members(p@) =~= members(before) + opt_member("noScopeJustification"@, opt_enum_json(self.no_scope_justification)));
        }
        let ghost before = p@;
        match &self.schema_version {
            Some(x) => {
                let v = Json::Str(x.to_wire().to_owned());
                p.push(("schemaVersion".to_owned(), v));
            },
            None => {},
        }
        proof {
            assert(members(p@) =~= members(before) + opt_member("schemaVersion"@, opt_enum_json(self.schema_version)));
        }
        let ghost before = p@;
        match &self.scope {
            Some(x) => {
                let q = copy_members(x);
                proof {
                    lemma_object_view(q);
                }
                let v = Json::Object(q);
                p.push(("scope".to_owned(), v));
            },
            None => {},
        }
        proof {
            assert(members(p@) =~= members(before) + opt_member("scope"@, opt_object_json(self.scope)));
        }
        proof {
            lemma_object_view(p);
        }
        Json::Object(p)
    }

    proof fn lemma_round_trip(self) {
        reveal_strlit("noScopeJustification");
        reveal_strlit("presentationDate");
        reveal_strlit("schemaVersion");
        reveal_strlit("scope");
        assert("noScopeJustification"@.len() == 20);
        assert("presentationDate"@.len() == 16);
        assert("schemaVersion"@.len() == 13);
        assert("scope"@.len() == 5);
        reveal_with_fuel(field, 2);
        let req = seq![
            ("presentationDate"@, JsonView::Str(self.presentation_date@)),
        ];
        let p0 = req;
        let o1 = opt_member("noScopeJustification"@, opt_enum_json(self.no_scope_justification));
        let p1 = p0 + o1;
        let o2 = opt_member("schemaVersion"@, opt_enum_json(self.schema_version));
        let p2 = p1 + o2;
        let o3 = opt_member("scope"@, opt_object_json(self.scope));
        let p3 = p2 + o3;
        assert(self.json_of()->Object_0 == p3);
        lemma_field_concat(p2, o3, "noScopeJustification"@);
        lemma_field_concat(p1, o2, "noScopeJustification"@);
        lemma_field_concat(p0, o1, "noScopeJustification"@);
        lemma_field_concat(p2, o3, "presentationDate"@);
        lemma_field_concat(p1, o2, "presentationDate"@);
        lemma_field_concat(p0, o1, "presentationDate"@);
        lemma_field_concat(p2, o3, "schemaVersion"@);
        lemma_field_concat(p1, o2, "schemaVersion"@);
        lemma_field_concat(p0, o1, "schemaVersion"@);
        lemma_field_concat(p2, o3, "scope"@);
        lemma_field_concat(p1, o2, "scope"@);
        lemma_field_concat(p0, o1, "scope"@);
        match self.no_scope_justification {
            Some(x) => x.lemma_wire(),
            None => {},
        }
        match self.schema_version {
            Some(x) => x.lemma_wire(),
            None => {},
        }
    }
}

/// Identification and classification of a submission.
pub struct Submission {
    /// ID of the clinical data node in the format KDKXXXnnn.
    pub clinical_data_node_id: String,
    /// "GKV" gesetzliche Krankenversicherung, "PKV" private Krankenversicherung, "BG"
    /// Berufsgenossenschaft, "SEL" Selbstzahler, "SOZ" Sozialamt, "GPV" gesetzliche
    /// Pflegeversicherung, "PPV" private Pflegeversicherung, "BEI" Beihilfe, "SKT" Sonstige
    /// Kostenträger, "UNK" Unbekannt
    pub coverage_type: CoverageType,
    /// Type of the disease
    pub disease_type: DiseaseType,
    /// ID of the genomic data center in the format GRZXXXnnn.
    pub genomic_data_center_id: String,
    /// whether tumor and/or germ-line are tested
    pub genomic_study_subtype: GenomicStudySubtype,
    /// whether additional persons are tested as well
    pub genomic_study_type: GenomicStudyType,
    /// Name of the sequencing lab.
    pub lab_name: String,
    /// A local case identifier of the Leistungserbringer to be able to track multiple
    /// submissions referring to the same index patient
    pub local_case_id: String,
    /// Date of submission in ISO 8601 format YYYY-MM-DD
    pub submission_date: String,
    /// The options are: 'initial' for first submission, 'followup' is for followup submissions,
    /// 'addition' for additional submission, 'correction' for correction
    pub submission_type: SubmissionType,
    /// Institutional ID of the submitter according to §293 SGB V.
    pub submitter_id: String,
    /// The VNg of the genomic data of the index patient that will be reimbursed --> a unique
    /// 32-length byte code represented in a hex string of length 64.
    pub tan_g: String,
}

impl MemberNames for Submission {
    open spec fn known_key(k: Seq<char>) -> bool {
        k == "clinicalDataNodeId"@
            || k == "coverageType"@
            || k == "diseaseType"@
            || k == "genomicDataCenterId"@
            || k == "genomicStudySubtype"@
            || k == "genomicStudyType"@
            || k == "labName"@
            || k == "localCaseId"@
            || k == "submissionDate"@
            || k == "submissionType"@
            || k == "submitterId"@
            || k == "tanG"@
    }

    fn is_known_key(k: &str) -> (r: bool) {
        str_eq(k, "clinicalDataNodeId")
            || str_eq(k, "coverageType")
            || str_eq(k, "diseaseType")
            || str_eq(k, "genomicDataCenterId")
            || str_eq(k, "genomicStudySubtype")
            || str_eq(k, "genomicStudyType")
            || str_eq(k, "labName")
            || str_eq(k, "localCaseId")
            || str_eq(k, "submissionDate")
            || str_eq(k, "submissionType")
            || str_eq(k, "submitterId")
            || str_eq(k, "tanG")
    }
}

impl Record for Submission {
    open spec fn required_key(k: Seq<char>) -> bool {
        k == "clinicalDataNodeId"@
            || k == "coverageType"@
            || k == "diseaseType"@
            || k == "genomicDataCenterId"@
            || k == "genomicStudySubtype"@
            || k == "genomicStudyType"@
            || k == "labName"@
            || k == "localCaseId"@
            || k == "submissionDate"@
            || k == "submissionType"@
            || k == "submitterId"@
            || k == "tanG"@
    }

    proof fn lemma_shape(j: JsonView, m: Self) {
        assert(Submission::decodes(j, m));
        match j {
            JsonView::Object(_) => {},
            _ => {},
        }
    }

    open spec fn decodes(j: JsonView, m: Submission) -> bool {
        match j {
            JsonView::Object(p) => {
                &&& keys_known::<Submission>(p)
                &&& str_of(field(p, "clinicalDataNodeId"@)) == Some(m.clinical_data_node_id@)
                &&& enum_of::<CoverageType>(field(p, "coverageType"@)) == Some(m.coverage_type)
                &&& enum_of::<DiseaseType>(field(p, "diseaseType"@)) == Some(m.disease_type)
                &&& str_of(field(p, "genomicDataCenterId"@)) == Some(m.genomic_data_center_id@)
                &&& enum_of::<GenomicStudySubtype>(field(p, "genomicStudySubtype"@)) == Some(m.genomic_study_subtype)
                &&& enum_of::<GenomicStudyType>(field(p, "genomicStudyType"@)) == Some(m.genomic_study_type)
                &&& str_of(field(p, "labName"@)) == Some(m.lab_name@)
                &&& str_of(field(p, "localCaseId"@)) == Some(m.local_case_id@)
                &&& str_of(field(p, "submissionDate"@)) == Some(m.submission_date@)
                &&& enum_of::<SubmissionType>(field(p, "submissionType"@)) == Some(m.submission_type)
                &&& str_of(field(p, "submitterId"@)) == Some(m.submitter_id@)
                &&& str_of(field(p, "tanG"@)) == Some(m.tan_g@)
            },
            _ => false,
        }
    }

    open spec fn json_of(self) -> JsonView {
        JsonView::Object(
            seq![
                ("clinicalDataNodeId"@, JsonView::Str(self.clinical_data_node_id@)),
                ("coverageType"@, JsonView::Str(self.coverage_type.wire())),
                ("diseaseType"@, JsonView::Str(self.disease_type.wire())),
                ("genomicDataCenterId"@, JsonView::Str(self.genomic_data_center_id@)),
                ("genomicStudySubtype"@, JsonView::Str(self.genomic_study_subtype.wire())),
                ("genomicStudyType"@, JsonView::Str(self.genomic_study_type.wire())),
                ("labName"@, JsonView::Str(self.lab_name@)),
                ("localCaseId"@, JsonView::Str(self.local_case_id@)),
                ("submissionDate"@, JsonView::Str(self.submission_date@)),
                ("submissionType"@, JsonView::Str(self.submission_type.wire())),
                ("submitterId"@, JsonView::Str(self.submitter_id@)),
                ("tanG"@, JsonView::Str(self.tan_g@)),
            ],
        )
    }

    fn from_json(j: &Json) -> (r: Result<Submission, SerdeError>) {
        match j {
            Json::Object(p) => {
                proof {
                    lemma_object_view(*p);
                }
                match check_keys::<Submission>(p) {
                    Ok(()) => {},
                    Err(e) => return Err(e),
                }
                let clinical_data_node_id = match get_str(p, "clinicalDataNodeId") {
                    Ok(v) => v,
                    Err(e) => return Err(e),
                };
                let coverage_type = match get_enum::<CoverageType>(p, "coverageType") {
                    Ok(v) => v,
                    Err(e) => return Err(e),
                };
                let disease_type = match get_enum::<DiseaseType>(p, "diseaseType") {
                    Ok(v) => v,
                    Err(e) => return Err(e),
                };
                let genomic_data_center_id = match get_str(p, "genomicDataCenterId") {
                    Ok(v) => v,
                    Err(e) => return Err(e),
                };
                let genomic_study_subtype = match get_enum::<GenomicStudySubtype>(p, "genomicStudySubtype") {
                    Ok(v) => v,
                    Err(e) => return Err(e),
                };
                let genomic_study_type = match get_enum::<GenomicStudyType>(p, "genomicStudyType") {
                    Ok(v) => v,
                    Err(e) => return Err(e),
                };
                let lab_name = match get_str(p, "labName") {
                    Ok(v) => v,
                    Err(e) => return Err(e),
                };
                let local_case_id = match get_str(p, "localCaseId") {
                    Ok(v) => v,
                    Err(e) => return Err(e),
                };
                let submission_date = match get_str(p, "submissionDate") {
                    Ok(v) => v,
                    Err(e) => return Err(e),
                };
                let submission_type = match get_enum::<SubmissionType>(p, "submissionType") {
                    Ok(v) => v,
                    Err(e) => return Err(e),
                };
                let submitter_id = match get_str(p, "submitterId") {
                    Ok(v) => v,
                    Err(e) => return Err(e),
                };
                let tan_g = match get_str(p, "tanG") {
                    Ok(v) => v,
                    Err(e) => return Err(e),
                };
                Ok(Submission { clinical_data_node_id, coverage_type, disease_type, genomic_data_center_id, genomic_study_subtype, genomic_study_type, lab_name, local_case_id, submission_date, submission_type, submitter_id, tan_g })
            },
            _ => Err(violation("expected an object for ", "Submission")),
        }
    }

    fn to_json(&self) -> (r: Json) {
        let mut p: Vec<(String, Json)> = Vec::new();
        p.push(("clinicalDataNodeId".to_owned(), Json::Str(self.clinical_data_node_id.clone())));
        p.push(("coverageType".to_owned(), Json::Str(self.coverage_type.to_wire().to_owned())));
        p.push(("diseaseType".to_owned(), Json::Str(self.disease_type.to_wire().to_owned())));
        p.push(("genomicDataCenterId".to_owned(), Json::Str(self.genomic_data_center_id.clone())));
        p.push(("genomicStudySubtype".to_owned(), Json::Str(self.genomic_study_subtype.to_wire().to_owned())));
        p.push(("genomicStudyType".to_owned(), Json::Str(self.genomic_study_type.to_wire().to_owned())));
        p.push(("labName".to_owned(), Json::Str(self.lab_name.clone())));
        p.push(("localCaseId".to_owned(), Json::Str(self.local_case_id.clone())));
        p.push(("submissionDate".to_owned(), Json::Str(self.submission_date.clone())));
        p.push(("submissionType".to_owned(), Json::Str(self.submission_type.to_wire().to_owned())));
        p.push(("submitterId".to_owned(), Json::Str(self.submitter_id.clone())));
        p.push(("tanG".to_owned(), Json::Str(self.tan_g.clone())));
        proof {
            assert(members(p@) =~= seq![
                ("clinicalDataNodeId"@, JsonView::Str(self.clinical_data_node_id@)),
                ("coverageType"@, JsonView::Str(self.coverage_type.wire())),
                ("diseaseType"@, JsonView::Str(self.disease_type.wire())),
                ("genomicDataCenterId"@, JsonView::Str(self.genomic_data_center_id@)),
                ("genomicStudySubtype"@, JsonView::Str(self.genomic_study_subtype.wire())),
                ("genomicStudyType"@, JsonView::Str(self.genomic_study_type.wire())),
                ("labName"@, JsonView::Str(self.lab_name@)),
                ("localCaseId"@, JsonView::Str(self.local_case_id@)),
                ("submissionDate"@, JsonView::Str(self.submission_date@)),
                ("submissionType"@, JsonView::Str(self.submission_type.wire())),
                ("submitterId"@, JsonView::Str(self.submitter_id@)),
                ("tanG"@, JsonView::Str(self.tan_g@)),
            ]);
        }
        proof {
            lemma_object_view(p);
        }
        Json::Object(p)
    }

    proof fn lemma_round_trip(self) {
        reveal_strlit("clinicalDataNodeId");
        reveal_strlit("coverageType");
        reveal_strlit("diseaseType");
        reveal_strlit("genomicDataCenterId");
        reveal_strlit("genomicStudySubtype");
        reveal_strlit("genomicStudyType");
        reveal_strlit("labName");
        reveal_strlit("localCaseId");
        reveal_strlit("submissionDate");
        reveal_strlit("submissionType");
        reveal_strlit("submitterId");
        reveal_strlit("tanG");
        assert("clinicalDataNodeId"@.len() == 18);
        assert("coverageType"@.len() == 12);
        assert("diseaseType"@.len() == 11);
        assert("genomicDataCenterId"@.len() == 19);
        assert("genomicStudySubtype"@.len() == 19);
        assert("genomicStudyType"@.len() == 16);
        assert("labName"@.len() == 7);
        assert("localCaseId"@.len() == 11);
        assert("submissionDate"@.len() == 14);
        assert("submissionType"@.len() == 14);
        assert("submitterId"@.len() == 11);
        assert("tanG"@.len() == 4);
        assert("diseaseType"@[0] == 'd' && "localCaseId"@[0] == 'l');
        assert("diseaseType"@[0] == 'd' && "submitterId"@[0] == 's');
        assert("genomicDataCenterId"@[7] == 'D' && "genomicStudySubtype"@[7] == 'S');
        assert("localCaseId"@[0] == 'l' && "submitterId"@[0] == 's');
        assert("submissionDate"@[10] == 'D' && "submissionType"@[10] == 'T');
        reveal_with_fuel(field, 7);
        let req = seq![
            ("clinicalDataNodeId"@, JsonView::Str(self.clinical_data_node_id@)),
            ("coverageType"@, JsonView::Str(self.coverage_type.wire())),
            ("diseaseType"@, JsonView::Str(self.disease_type.wire())),
            ("genomicDataCenterId"@, JsonView::Str(self.genomic_data_center_id@)),
            ("genomicStudySubtype"@, JsonView::Str(self.genomic_study_subtype.wire())),
            ("genomicStudyType"@, JsonView::Str(self.genomic_study_type.wire())),
            ("labName"@, JsonView::Str(self.lab_name@)),
            ("localCaseId"@, JsonView::Str(self.local_case_id@)),
            ("submissionDate"@, JsonView::Str(self.submission_date@)),
            ("submissionType"@, JsonView::Str(self.submission_type.wire())),
            ("submitterId"@, JsonView::Str(self.submitter_id@)),
            ("tanG"@, JsonView::Str(self.tan_g@)),
        ];
        let c0 = seq![
                ("clinicalDataNodeId"@, JsonView::Str(self.clinical_data_node_id@)),
                ("coverageType"@, JsonView::Str(self.coverage_type.wire())),
                ("diseaseType"@, JsonView::Str(self.disease_type.wire())),
                ("genomicDataCenterId"@, JsonView::Str(self.genomic_data_center_id@)),
                ("genomicStudySubtype"@, JsonView::Str(self.genomic_study_subtype.wire())),
                ("genomicStudyType"@, JsonView::Str(self.genomic_study_type.wire())),
            ];
        let c1 = seq![
                ("labName"@, JsonView::Str(self.lab_name@)),
                ("localCaseId"@, JsonView::Str(self.local_case_id@)),
                ("submissionDate"@, JsonView::Str(self.submission_date@)),
                ("submissionType"@, JsonView::Str(self.submission_type.wire())),
                ("submitterId"@, JsonView::Str(self.submitter_id@)),
                ("tanG"@, JsonView::Str(self.tan_g@)),
            ];
        let q0 = c0;
        let q1 = q0 + c1;
        assert(req =~= q1);
        lemma_field_concat(q0, c1, "clinicalDataNodeId"@);
        lemma_field_concat(q0, c1, "coverageType"@);
        lemma_field_concat(q0, c1, "diseaseType"@);
        lemma_field_concat(q0, c1, "genomicDataCenterId"@);
        lemma_field_concat(q0, c1, "genomicStudySubtype"@);
        lemma_field_concat(q0, c1, "genomicStudyType"@);
        lemma_field_concat(q0, c1, "labName"@);
        lemma_field_concat(q0, c1, "localCaseId"@);
        lemma_field_concat(q0, c1, "submissionDate"@);
        lemma_field_concat(q0, c1, "submissionType"@);
        lemma_field_concat(q0, c1, "submitterId"@);
        lemma_field_concat(q0, c1, "tanG"@);
        assert(self.json_of()->Object_0 == req);
        self.coverage_type.lemma_wire();
        self.disease_type.lemma_wire();
        self.genomic_study_subtype.lemma_wire();
        self.genomic_study_type.lemma_wire();
        self.submission_type.lemma_wire();
    }
}

} // verus!
