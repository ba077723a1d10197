//! Evidence: what an executed instruction leaves behind for the audit.

use vstd::prelude::*;

verus! {

/// The text that the standard Base64 alphabet, with padding, gives for `data`.
pub uninterp spec fn base64_standard(data: Seq<u8>) -> Seq<char>;

/// What a piece of evidence holds, as the contracts speak of it.
pub enum Content {
    /// Plain text.
    Textual(Seq<char>),
    /// A PNG image, encoded as Base64 text.
    ImageAsPngBase64(Seq<char>),
}

/// A piece of evidence, as the contracts speak of it.
pub struct EvidenceModel {
    pub label: Seq<char>,
    pub content: Content,
}

/// What a piece of evidence holds.
#[derive(Debug)]
pub enum EvidenceContent {
    /// Plain text.
    Textual(String),
    /// A PNG image, encoded as Base64 text.
    ImageAsPngBase64(String),
}

/// A labelled piece of evidence. It cannot be changed once it is made.
#[derive(Debug)]
pub struct Evidence {
    label: String,
    content: EvidenceContent,
}

impl View for EvidenceContent {
    type V = Content;

    open spec fn view(&self) -> Content {
        match self {
            EvidenceContent::Textual(text) => Content::Textual(text@),
            EvidenceContent::ImageAsPngBase64(text) => Content::ImageAsPngBase64(text@),
        }
    }
}

impl View for Evidence {
    type V = EvidenceModel;

    closed spec fn view(&self) -> EvidenceModel {
        EvidenceModel { label: self.label@, content: self.content@ }
    }
}

/// The evidence of `items`, as the contracts speak of it.
pub open spec fn evidence_models(items: Seq<Evidence>) -> Seq<EvidenceModel> {
    Seq::new(items.len(), |i: int| items[i]@)
}

/// Whether the Base64 text for `length` bytes has a length that fits `usize`.
pub open spec fn encodable(length: nat) -> bool {
    (length / 3) * 4 + 4 <= usize::MAX
}

/// Calls `Engine::encode` of the `base64` crate on its `STANDARD` engine: the
/// result is the padded Base64 text of `data` in the standard alphabet. The
/// call panics where the length of that text does not fit `usize`, so such
/// data is not admitted.
#[verifier::external_body]
fn encode_base64(data: &[u8]) -> (text: String)
    requires
        encodable(data@.len()),
    ensures
        text@ == base64_standard(data@),
{
    base64::Engine::encode(&base64::engine::general_purpose::STANDARD, data)
}

/// No evidence.
pub fn no_evidence() -> (items: Vec<Evidence>)
    ensures
        evidence_models(items@) == Seq::<EvidenceModel>::empty(),
{
    let items: Vec<Evidence> = Vec::new();
    assert(evidence_models(items@) =~= Seq::<EvidenceModel>::empty());
    items
}

/// One piece of evidence.
pub fn one_evidence(item: Evidence) -> (items: Vec<Evidence>)
    ensures
        evidence_models(items@) == Seq::<EvidenceModel>::empty().push(item@),
{
    let mut items: Vec<Evidence> = Vec::new();
    items.push(item);
    assert(evidence_models(items@) =~= Seq::<EvidenceModel>::empty().push(item@));
    items
}

impl Evidence {
    /// Evidence that holds `text`.
    pub fn textual(label: String, text: String) -> (evidence: Evidence)
        ensures
            evidence@ == (EvidenceModel { label: label@, content: Content::Textual(text@) }),
    {
        Evidence { label, content: EvidenceContent::Textual(text) }
    }

    /// Evidence that holds an image which is already encoded as `base64`.
    pub fn image(label: String, base64: String) -> (evidence: Evidence)
        ensures
            evidence@ == (EvidenceModel {
                label: label@,
                content: Content::ImageAsPngBase64(base64@),
            }),
    {
        Evidence { label, content: EvidenceContent::ImageAsPngBase64(base64) }
    }

    /// Evidence that holds the PNG image `png`, or nothing where the image is
    /// too long to be encoded.
    pub fn screenshot(label: String, png: &[u8]) -> (evidence: Option<Evidence>)
        ensures
            match evidence {
                Some(made) => encodable(png@.len()) && made@ == (EvidenceModel {
                    label: label@,
                    content: Content::ImageAsPngBase64(base64_standard(png@)),
                }),
                None => !encodable(png@.len()),
            },
    {
        if png.len() / 3 <= (usize::MAX - 4) / 4 {
            Some(Evidence::image(label, encode_base64(png)))
        } else {
            None
        }
    }

    /// The label of the evidence.
    pub fn label(&self) -> (label: &str)
        ensures
            label@ == self@.label,
    {
        self.label.as_str()
    }

    /// What the evidence holds.
    pub fn content(&self) -> (content: &EvidenceContent)
        ensures
            content@ == self@.content,
    {
        &self.content
    }
}

} // verus!
