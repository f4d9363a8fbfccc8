use vstd::prelude::*;

verus! {

/// The two markup dialects the tool can convert between. Only the pair
/// Markdown and OrgMode is supported; conversion always goes from one to
/// the other.
#[derive(Debug, Clone, Copy, PartialEq, Eq, Structural)]
pub enum MarkupDialect {
    Markdown,
    OrgMode,
}

impl MarkupDialect {
    /// File-name extension conventionally used for files in this dialect.
    pub open spec fn spec_extension(self) -> Seq<char> {
        match self {
            MarkupDialect::Markdown => "md"@,
            MarkupDialect::OrgMode => "org"@,
        }
    }

    /// File-name extension conventionally used for files in this dialect.
    pub fn extension(self) -> (r: &'static str)
        ensures
            r@ == self.spec_extension(),
    {
        match self {
            MarkupDialect::Markdown => "md",
            MarkupDialect::OrgMode => "org",
        }
    }

    /// Name under which the external converter tool knows this dialect.
    pub open spec fn spec_converter_name(self) -> Seq<char> {
        match self {
            MarkupDialect::Markdown => "markdown"@,
            MarkupDialect::OrgMode => "org"@,
        }
    }

    /// Name under which the external converter tool knows this dialect.
    pub fn converter_name(self) -> (r: &'static str)
        ensures
            r@ == self.spec_converter_name(),
    {
        match self {
            MarkupDialect::Markdown => "markdown",
            MarkupDialect::OrgMode => "org",
        }
    }
}

} // verus!
