//! Making a development PDF into a Document.

use vstd::prelude::*;

use crate::config::PdfInspectionLimits;
use crate::digest::{digest, sha256, DIGEST_LIMIT};
use crate::error::{ServerError, ServerErrorView};
use crate::facts::lemma_known;

verus! {

/// What is known so far of a development PDF.
#[derive(Debug)]
pub struct PdfFacts {
    /// Its length; none inside where its metadata could not be read.
    pub length: Option<Option<u64>>,
    /// Its bytes; none inside where they could not be read.
    pub bytes: Option<Option<Vec<u8>>>,
    /// Whether its Asset descriptor was accepted.
    pub described: Option<bool>,
    /// Whether the Asset was stored and verified.
    pub ingested: Option<bool>,
    /// Whether what was inspected is that Asset; none inside where the inspection failed.
    pub inspected: Option<Option<bool>>,
    /// Whether its Pages were accepted as those of a Document.
    pub described_document: Option<bool>,
    /// Whether the Document was composed.
    pub composed: Option<bool>,
}

/// The contents of [`PdfFacts`].
pub struct PdfFactsView {
    /// Its length; none inside where its metadata could not be read.
    pub length: Option<Option<u64>>,
    /// Its bytes; none inside where they could not be read.
    pub bytes: Option<Option<Seq<u8>>>,
    /// Whether its Asset descriptor was accepted.
    pub described: Option<bool>,
    /// Whether the Asset was stored and verified.
    pub ingested: Option<bool>,
    /// Whether what was inspected is that Asset; none inside where the inspection failed.
    pub inspected: Option<Option<bool>>,
    /// Whether its Pages were accepted as those of a Document.
    pub described_document: Option<bool>,
    /// Whether the Document was composed.
    pub composed: Option<bool>,
}

impl View for PdfFacts {
    type V = PdfFactsView;

    open spec fn view(&self) -> PdfFactsView {
        PdfFactsView {
            length: self.length,
            bytes: match self.bytes {
                None => None,
                Some(None) => Some(None),
                Some(Some(bytes)) => Some(Some(bytes@)),
            },
            described: self.described,
            ingested: self.ingested,
            inspected: self.inspected,
            described_document: self.described_document,
            composed: self.composed,
        }
    }
}

/// What making a development PDF into a Document does next.
#[derive(Debug)]
pub enum PdfStep {
    /// Read its metadata.
    ReadMetadata,
    /// Read its bytes.
    ReadBytes,
    /// Describe it as an Asset with that length and that SHA-256 digest.
    DescribeAsset {
        /// The length.
        length: u64,
        /// The digest.
        digest: Vec<u8>,
    },
    /// Store and verify the Asset.
    Ingest,
    /// Inspect the Asset.
    Inspect,
    /// Describe its Pages as those of a Document.
    DescribeDocument,
    /// Compose the Document.
    Compose,
    /// The Document is composed.
    Done,
    /// The PDF cannot be made into a Document.
    Fail(ServerError),
}

/// The contents of [`PdfStep`].
pub enum PdfStepView {
    /// Read its metadata.
    ReadMetadata,
    /// Read its bytes.
    ReadBytes,
    /// Describe it as an Asset with that length and that SHA-256 digest.
    DescribeAsset(int, Seq<u8>),
    /// Store and verify the Asset.
    Ingest,
    /// Inspect the Asset.
    Inspect,
    /// Describe its Pages as those of a Document.
    DescribeDocument,
    /// Compose the Document.
    Compose,
    /// The Document is composed.
    Done,
    /// The PDF cannot be made into a Document.
    Fail(ServerErrorView),
}

impl View for PdfStep {
    type V = PdfStepView;

    open spec fn view(&self) -> PdfStepView {
        match *self {
            PdfStep::ReadMetadata => PdfStepView::ReadMetadata,
            PdfStep::ReadBytes => PdfStepView::ReadBytes,
            PdfStep::DescribeAsset { length, digest } => PdfStepView::DescribeAsset(
                length as int,
                digest@,
            ),
            PdfStep::Ingest => PdfStepView::Ingest,
            PdfStep::Inspect => PdfStepView::Inspect,
            PdfStep::DescribeDocument => PdfStepView::DescribeDocument,
            PdfStep::Compose => PdfStepView::Compose,
            PdfStep::Done => PdfStepView::Done,
            PdfStep::Fail(error) => PdfStepView::Fail(error@),
        }
    }
}

/// A PDF that cannot be made into a Document.
pub open spec fn pdf_failure(message: Seq<char>) -> PdfStepView {
    PdfStepView::Fail(ServerErrorView::Bootstrap(message))
}

/// What is done with the stored Asset.
pub open spec fn stored_pdf_step(facts: PdfFactsView) -> PdfStepView {
    match facts.inspected {
        None => PdfStepView::Inspect,
        Some(None) => pdf_failure("development PDF inspection failed"@),
        Some(Some(false)) => pdf_failure("development PDF metadata identity mismatch"@),
        Some(Some(true)) => match facts.described_document {
            None => PdfStepView::DescribeDocument,
            Some(false) => pdf_failure("development Document composition input is invalid"@),
            Some(true) => match facts.composed {
                None => PdfStepView::Compose,
                Some(false) => pdf_failure("development Document composition failed"@),
                Some(true) => PdfStepView::Done,
            },
        },
    }
}

/// What making a development PDF into a Document does next; `has_store` tells whether any Asset
/// store takes it. A PDF beyond the size limit is not read.
pub open spec fn pdf_step(limits: PdfInspectionLimits, has_store: bool, facts: PdfFactsView) ->
    PdfStepView {
    match facts.length {
        None => PdfStepView::ReadMetadata,
        Some(None) => pdf_failure("development PDF metadata could not be read"@),
        Some(Some(length)) => if length > limits.max_asset_bytes {
            pdf_failure("development PDF exceeds the inspection size limit"@)
        } else {
            match facts.bytes {
                None => PdfStepView::ReadBytes,
                Some(None) => pdf_failure("development PDF bytes could not be read"@),
                Some(Some(bytes)) => match facts.described {
                    None => PdfStepView::DescribeAsset(length as int, sha256(bytes)),
                    Some(false) => pdf_failure("development PDF asset metadata is invalid"@),
                    Some(true) => if !has_store {
                        pdf_failure("no Asset ingest backend is available"@)
                    } else {
                        match facts.ingested {
                            None => PdfStepView::Ingest,
                            Some(false) => pdf_failure(
                                "development PDF asset verification failed"@,
                            ),
                            Some(true) => stored_pdf_step(facts),
                        }
                    },
                },
            }
        },
    }
}

fn fail(message: &str) -> (r: PdfStep)
    ensures
        r@ == pdf_failure(message@),
{
    PdfStep::Fail(ServerError::bootstrap(message))
}

fn decide_stored(facts: &PdfFacts) -> (r: PdfStep)
    ensures
        r@ == stored_pdf_step(facts@),
{
    match facts.inspected {
        None => {
            return PdfStep::Inspect;
        },
        Some(None) => {
            return fail("development PDF inspection failed");
        },
        Some(Some(same)) => if !same {
            return fail("development PDF metadata identity mismatch");
        },
    }
    match facts.described_document {
        None => {
            return PdfStep::DescribeDocument;
        },
        Some(done) => if !done {
            return fail("development Document composition input is invalid");
        },
    }
    match facts.composed {
        None => PdfStep::Compose,
        Some(done) => if done {
            PdfStep::Done
        } else {
            fail("development Document composition failed")
        },
    }
}

/// Decides what making a development PDF into a Document does next.
pub fn bootstrap_development_pdf(limits: PdfInspectionLimits, has_store: bool, facts: &PdfFacts) -> (r:
    PdfStep)
    requires
        facts@.bytes matches Some(Some(bytes)) ==> bytes.len() < DIGEST_LIMIT,
    ensures
        r@ == pdf_step(limits, has_store, facts@),
{
    let length: u64 = match facts.length {
        None => {
            return PdfStep::ReadMetadata;
        },
        Some(None) => {
            return fail("development PDF metadata could not be read");
        },
        Some(Some(length)) => length,
    };
    if length > limits.max_asset_bytes {
        return fail("development PDF exceeds the inspection size limit");
    }
    let bytes = match &facts.bytes {
        None => {
            return PdfStep::ReadBytes;
        },
        Some(None) => {
            return fail("development PDF bytes could not be read");
        },
        Some(Some(bytes)) => bytes,
    };
    match facts.described {
        None => {
            return match digest(bytes.as_slice()) {
                Some(digest) => PdfStep::DescribeAsset { length, digest },
                None => fail("development PDF bytes could not be read"),
            };
        },
        Some(done) => if !done {
            return fail("development PDF asset metadata is invalid");
        },
    }
    if !has_store {
        return fail("no Asset ingest backend is available");
    }
    match facts.ingested {
        None => PdfStep::Ingest,
        Some(done) => if done {
            decide_stored(facts)
        } else {
            fail("development PDF asset verification failed")
        },
    }
}

/// A PDF beyond the size limit is refused whatever else is known: its bytes are not read, and
/// nothing of it is stored.
pub proof fn law_oversized_pdf_is_refused(
    limits: PdfInspectionLimits,
    has_store: bool,
    facts: PdfFactsView,
    length: u64,
)
    requires
        facts.length == Some(Some(length)),
        length > limits.max_asset_bytes,
    ensures
        pdf_step(limits, has_store, facts) == pdf_failure(
            "development PDF exceeds the inspection size limit"@,
        ),
{
}

/// A development PDF is made into a Document step by step: its size is held against the limit
/// before it is read, it is described with its length and the SHA-256 digest of its bytes, stored
/// and verified, inspected, and composed. It is done exactly where all of that succeeded, and each
/// step is taken only where everything before it did.
pub proof fn law_pdf_goes_step_by_step(
    limits: PdfInspectionLimits,
    has_store: bool,
    facts: PdfFactsView,
)
    ensures
        ({
            let next = pdf_step(limits, has_store, facts);
            let small = facts.length matches Some(Some(length)) && length <= limits.max_asset_bytes;
            let read = small && (facts.bytes matches Some(Some(_)));
            let described = read && facts.described == Some(true);
            let stored = described && has_store && facts.ingested == Some(true);
            let inspected = stored && facts.inspected == Some(Some(true));
            let ready = inspected && facts.described_document == Some(true);
            &&& next is ReadMetadata <==> facts.length is None
            &&& next is ReadBytes <==> small && facts.bytes is None
            &&& next is DescribeAsset <==> read && facts.described is None
            &&& next matches PdfStepView::DescribeAsset(length, digest) ==> facts.length == Some(
                Some(length as u64),
            ) && digest == sha256(facts.bytes->0->0)
            &&& next is Ingest <==> described && has_store && facts.ingested is None
            &&& next is Inspect <==> stored && facts.inspected is None
            &&& next is DescribeDocument <==> inspected && facts.described_document is None
            &&& next is Compose <==> ready && facts.composed is None
            &&& next is Done <==> ready && facts.composed == Some(true)
            &&& next is Fail ==> next->Fail_0 is Bootstrap
        }),
{
    lemma_known(facts.described);
    lemma_known(facts.ingested);
    lemma_known(facts.described_document);
    lemma_known(facts.composed);
    if let Some(inspected) = facts.inspected {
        lemma_known(inspected);
    }
}

/// A PDF that would be made into a Document but for one step that failed reports that step.
pub proof fn law_failed_steps_are_reported(
    limits: PdfInspectionLimits,
    has_store: bool,
    facts: PdfFactsView,
)
    requires
        pdf_step(limits, has_store, facts) is Done,
    ensures
        pdf_step(limits, has_store, PdfFactsView { length: Some(None), ..facts })
            == PdfStepView::Fail(
            ServerErrorView::Bootstrap("development PDF metadata could not be read"@),
        ),
        pdf_step(limits, has_store, PdfFactsView { bytes: Some(None), ..facts })
            == PdfStepView::Fail(
            ServerErrorView::Bootstrap("development PDF bytes could not be read"@),
        ),
        pdf_step(limits, has_store, PdfFactsView { described: Some(false), ..facts })
            == PdfStepView::Fail(
            ServerErrorView::Bootstrap("development PDF asset metadata is invalid"@),
        ),
        pdf_step(limits, has_store, PdfFactsView { ingested: Some(false), ..facts })
            == PdfStepView::Fail(
            ServerErrorView::Bootstrap("development PDF asset verification failed"@),
        ),
        pdf_step(limits, has_store, PdfFactsView { inspected: Some(None), ..facts })
            == PdfStepView::Fail(
            ServerErrorView::Bootstrap("development PDF inspection failed"@),
        ),
        pdf_step(limits, has_store, PdfFactsView { inspected: Some(Some(false)), ..facts })
            == PdfStepView::Fail(
            ServerErrorView::Bootstrap("development PDF metadata identity mismatch"@),
        ),
        pdf_step(limits, has_store, PdfFactsView { described_document: Some(false), ..facts })
            == PdfStepView::Fail(
            ServerErrorView::Bootstrap("development Document composition input is invalid"@),
        ),
        pdf_step(limits, has_store, PdfFactsView { composed: Some(false), ..facts })
            == PdfStepView::Fail(
            ServerErrorView::Bootstrap("development Document composition failed"@),
        ),
        pdf_step(limits, false, facts) == PdfStepView::Fail(
            ServerErrorView::Bootstrap("no Asset ingest backend is available"@),
        ),
{
    law_pdf_goes_step_by_step(limits, has_store, facts);
}

} // verus!
