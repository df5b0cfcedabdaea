use vstd::prelude::*;

verus! {

/// Why a decode failed. Every failure is fatal to the file being decoded:
/// there is no partial result and no recovery.
#[derive(Debug, Clone, PartialEq, Eq)]
pub enum DecodeError {
    /// The stream ended before the field being read was complete.
    Truncated,
    /// The three-byte container signature was wrong.
    BadMagic,
    /// The platform code byte was not one of the recognized values.
    UnknownPlatform(u8),
    /// The version code byte was not one of the recognized values.
    UnknownVersion(u8),
    /// The version code was recognized but is not the one supported version.
    UnsupportedVersion,
    /// A variable-length integer did not terminate within five bytes.
    MalformedVarint,
    /// A length-prefixed string was not valid UTF-8.
    InvalidString,
    /// An asset's type index pointed outside the type-reader manifest.
    BadTypeIndex,
    /// The manifest name selected by a type index is not a known decoder.
    UnknownTypeReader,
    /// A nested asset was not of the kind the enclosing layout requires.
    UnexpectedAsset,
    /// A pixel-format code outside the recognized set.
    UnknownPixelFormat(u32),
    /// A vertex-element format code outside the recognized set.
    UnknownElementFormat(u8),
    /// A vertex-element method code outside the recognized set.
    UnknownElementMethod(u8),
    /// A vertex-element usage code outside the recognized set.
    UnknownElementUsage(u8),
    /// A collision-material code outside the recognized set.
    UnknownCollisionMaterial(u8),
    /// A light-kind code outside the recognized set.
    UnknownLightKind(u32),
    /// A light-variation code outside the recognized set.
    UnknownLightVariation(u32),
    /// A movement-properties byte with bits outside the declared set.
    UnknownMovementProperties(u8),
    /// A texture whose declared dimensions describe a pixel buffer larger
    /// than the machine can address.
    TextureTooLarge,
    /// A vertex element whose usage the deferred shader cannot consume.
    UnsupportedVertexUsage,
    /// A vertex schema missing an attribute the deferred shader requires.
    MissingVertexElement,
    /// The liquid sub-format is recognized but its layout is not supported;
    /// decoding aborts rather than misreading what follows.
    UnsupportedLiquid,
    /// A list element was introduced by a manifest entry that is not the
    /// list reader.
    ExpectedListReader,
    /// The sliding-window decompressor rejected a block.
    DecompressFailed,
    /// The effect text is not well-formed markup.
    MalformedXml,
    /// The effect text holds a malformed entity reference; one repair pass
    /// may be attempted.
    MalformedEntityReference,
    /// The effect document is deeper or wider than the reader's budget.
    XmlTooLarge,
    /// A required attribute of the effect dialect is absent.
    MissingXmlAttribute,
    /// A required child element of the effect dialect is absent.
    MissingXmlChild,
    /// An attribute or element of the effect dialect holds a value outside
    /// its recognized set.
    InvalidXmlValue,
}

impl DecodeError {
    /// The description `message` returns for each failure.
    pub open spec fn sp_message(&self) -> Seq<char> {
        match self {
            DecodeError::Truncated => "stream ended before the field was complete"@,
            DecodeError::BadMagic => "not an XNB file"@,
            DecodeError::UnknownPlatform(_) => "unknown platform code"@,
            DecodeError::UnknownVersion(_) => "unknown version code"@,
            DecodeError::UnsupportedVersion => "unsupported XNA version"@,
            DecodeError::MalformedVarint => "malformed 7-bit encoded integer"@,
            DecodeError::InvalidString => "string is not valid UTF-8"@,
            DecodeError::BadTypeIndex => "type index outside the manifest"@,
            DecodeError::UnknownTypeReader => "unknown type reader"@,
            DecodeError::UnexpectedAsset => "nested asset of an unexpected kind"@,
            DecodeError::UnknownPixelFormat(_) => "unknown texture format"@,
            DecodeError::UnknownElementFormat(_) => "unknown element format"@,
            DecodeError::UnknownElementMethod(_) => "unknown element method"@,
            DecodeError::UnknownElementUsage(_) => "unknown element usage"@,
            DecodeError::UnknownCollisionMaterial(_) => "unknown collision material"@,
            DecodeError::UnknownLightKind(_) => "unknown level model light kind"@,
            DecodeError::UnknownLightVariation(_) => "unknown level model light variation"@,
            DecodeError::UnsupportedVertexUsage => "unsupported vertex usage"@,
            DecodeError::MissingVertexElement => "missing vertex element"@,
            DecodeError::UnknownMovementProperties(_) => "unknown movement properties"@,
            DecodeError::TextureTooLarge => "texture dimensions are too large"@,
            DecodeError::UnsupportedLiquid => "liquid layout is not supported"@,
            DecodeError::ExpectedListReader => "expected a list reader"@,
            DecodeError::DecompressFailed => "decompression failed"@,
            DecodeError::MalformedXml => "markup is not well-formed"@,
            DecodeError::MalformedEntityReference => "malformed entity reference"@,
            DecodeError::XmlTooLarge => "markup exceeds the reader's budget"@,
            DecodeError::MissingXmlAttribute => "a required attribute is absent"@,
            DecodeError::MissingXmlChild => "a required child element is absent"@,
            DecodeError::InvalidXmlValue => "value outside the recognized set"@,
        }
    }

    /// A short human-readable description of the failure.
    pub fn message(&self) -> (r: String)
        ensures
            r@ == self.sp_message(),
    {
        match self {
            DecodeError::Truncated => "stream ended before the field was complete".to_owned(),
            DecodeError::BadMagic => "not an XNB file".to_owned(),
            DecodeError::UnknownPlatform(_) => "unknown platform code".to_owned(),
            DecodeError::UnknownVersion(_) => "unknown version code".to_owned(),
            DecodeError::UnsupportedVersion => "unsupported XNA version".to_owned(),
            DecodeError::MalformedVarint => "malformed 7-bit encoded integer".to_owned(),
            DecodeError::InvalidString => "string is not valid UTF-8".to_owned(),
            DecodeError::BadTypeIndex => "type index outside the manifest".to_owned(),
            DecodeError::UnknownTypeReader => "unknown type reader".to_owned(),
            DecodeError::UnexpectedAsset => "nested asset of an unexpected kind".to_owned(),
            DecodeError::UnknownPixelFormat(_) => "unknown texture format".to_owned(),
            DecodeError::UnknownElementFormat(_) => "unknown element format".to_owned(),
            DecodeError::UnknownElementMethod(_) => "unknown element method".to_owned(),
            DecodeError::UnknownElementUsage(_) => "unknown element usage".to_owned(),
            DecodeError::UnknownCollisionMaterial(_) => "unknown collision material".to_owned(),
            DecodeError::UnknownLightKind(_) => "unknown level model light kind".to_owned(),
            DecodeError::UnknownLightVariation(_) => {
                "unknown level model light variation".to_owned()
            },
            DecodeError::UnknownMovementProperties(_) => {
                "unknown movement properties".to_owned()
            },
            DecodeError::TextureTooLarge => "texture dimensions are too large".to_owned(),
            DecodeError::UnsupportedVertexUsage => "unsupported vertex usage".to_owned(),
            DecodeError::MissingVertexElement => "missing vertex element".to_owned(),
            DecodeError::UnsupportedLiquid => "liquid layout is not supported".to_owned(),
            DecodeError::ExpectedListReader => "expected a list reader".to_owned(),
            DecodeError::DecompressFailed => "decompression failed".to_owned(),
            DecodeError::MalformedXml => "markup is not well-formed".to_owned(),
            DecodeError::MalformedEntityReference => "malformed entity reference".to_owned(),
            DecodeError::XmlTooLarge => "markup exceeds the reader's budget".to_owned(),
            DecodeError::MissingXmlAttribute => "a required attribute is absent".to_owned(),
            DecodeError::MissingXmlChild => "a required child element is absent".to_owned(),
            DecodeError::InvalidXmlValue => "value outside the recognized set".to_owned(),
        }
    }
}

} // verus!
