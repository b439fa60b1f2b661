//! Conversions that lift a value into the union it is an alternative of.

use vstd::prelude::*;
use crate::basic::{Location, LocationLink};
use crate::capabilities::{
    ImplementationProviderCapability, SaveOptions, StaticTextDocumentRegistrationOptions,
    TextDocumentSyncCapability, TextDocumentSyncOptions, TextDocumentSyncSaveOptions,
    TypeDefinitionProviderCapability,
};
use crate::basic::Command;
use crate::code_action::{CodeAction, CodeActionOptions, CodeActionOrCommand, CodeActionProviderCapability};
use crate::kinds::TextDocumentSyncKind;
use crate::protocol::{GlobPattern, GotoDefinitionResponse, RelativePattern};

verus! {

impl From<CodeActionOptions> for CodeActionProviderCapability {
    fn from(v: CodeActionOptions) -> (r: CodeActionProviderCapability) {
        CodeActionProviderCapability::Options(v)
    }
}

impl vstd::std_specs::convert::FromSpecImpl<CodeActionOptions> for CodeActionProviderCapability {
    open spec fn obeys_from_spec() -> bool {
        true
    }

    open spec fn from_spec(v: CodeActionOptions) -> CodeActionProviderCapability {
        CodeActionProviderCapability::Options(v)
    }
}

impl From<bool> for CodeActionProviderCapability {
    fn from(v: bool) -> (r: CodeActionProviderCapability) {
        CodeActionProviderCapability::Simple(v)
    }
}

impl vstd::std_specs::convert::FromSpecImpl<bool> for CodeActionProviderCapability {
    open spec fn obeys_from_spec() -> bool {
        true
    }

    open spec fn from_spec(v: bool) -> CodeActionProviderCapability {
        CodeActionProviderCapability::Simple(v)
    }
}

impl From<Command> for CodeActionOrCommand {
    fn from(v: Command) -> (r: CodeActionOrCommand) {
        CodeActionOrCommand::Command(v)
    }
}

impl vstd::std_specs::convert::FromSpecImpl<Command> for CodeActionOrCommand {
    open spec fn obeys_from_spec() -> bool {
        true
    }

    open spec fn from_spec(v: Command) -> CodeActionOrCommand {
        CodeActionOrCommand::Command(v)
    }
}

impl From<CodeAction> for CodeActionOrCommand {
    fn from(v: CodeAction) -> (r: CodeActionOrCommand) {
        CodeActionOrCommand::CodeAction(Box::new(v))
    }
}

impl vstd::std_specs::convert::FromSpecImpl<CodeAction> for CodeActionOrCommand {
    open spec fn obeys_from_spec() -> bool {
        true
    }

    open spec fn from_spec(v: CodeAction) -> CodeActionOrCommand {
        CodeActionOrCommand::CodeAction(Box::new(v))
    }
}

impl From<SaveOptions> for TextDocumentSyncSaveOptions {
    fn from(v: SaveOptions) -> (r: TextDocumentSyncSaveOptions) {
        TextDocumentSyncSaveOptions::SaveOptions(v)
    }
}

impl vstd::std_specs::convert::FromSpecImpl<SaveOptions> for TextDocumentSyncSaveOptions {
    open spec fn obeys_from_spec() -> bool {
        true
    }

    open spec fn from_spec(v: SaveOptions) -> TextDocumentSyncSaveOptions {
        TextDocumentSyncSaveOptions::SaveOptions(v)
    }
}

impl From<bool> for TextDocumentSyncSaveOptions {
    fn from(v: bool) -> (r: TextDocumentSyncSaveOptions) {
        TextDocumentSyncSaveOptions::Supported(v)
    }
}

impl vstd::std_specs::convert::FromSpecImpl<bool> for TextDocumentSyncSaveOptions {
    open spec fn obeys_from_spec() -> bool {
        true
    }

    open spec fn from_spec(v: bool) -> TextDocumentSyncSaveOptions {
        TextDocumentSyncSaveOptions::Supported(v)
    }
}

impl From<TextDocumentSyncOptions> for TextDocumentSyncCapability {
    fn from(v: TextDocumentSyncOptions) -> (r: TextDocumentSyncCapability) {
        TextDocumentSyncCapability::Options(v)
    }
}

impl vstd::std_specs::convert::FromSpecImpl<TextDocumentSyncOptions> for TextDocumentSyncCapability {
    open spec fn obeys_from_spec() -> bool {
        true
    }

    open spec fn from_spec(v: TextDocumentSyncOptions) -> TextDocumentSyncCapability {
        TextDocumentSyncCapability::Options(v)
    }
}

impl From<TextDocumentSyncKind> for TextDocumentSyncCapability {
    fn from(v: TextDocumentSyncKind) -> (r: TextDocumentSyncCapability) {
        TextDocumentSyncCapability::Kind(v)
    }
}

impl vstd::std_specs::convert::FromSpecImpl<TextDocumentSyncKind> for TextDocumentSyncCapability {
    open spec fn obeys_from_spec() -> bool {
        true
    }

    open spec fn from_spec(v: TextDocumentSyncKind) -> TextDocumentSyncCapability {
        TextDocumentSyncCapability::Kind(v)
    }
}

impl From<StaticTextDocumentRegistrationOptions> for ImplementationProviderCapability {
    fn from(v: StaticTextDocumentRegistrationOptions) -> (r: ImplementationProviderCapability) {
        ImplementationProviderCapability::Options(v)
    }
}

impl vstd::std_specs::convert::FromSpecImpl<StaticTextDocumentRegistrationOptions> for ImplementationProviderCapability {
    open spec fn obeys_from_spec() -> bool {
        true
    }

    open spec fn from_spec(v: StaticTextDocumentRegistrationOptions) -> ImplementationProviderCapability {
        ImplementationProviderCapability::Options(v)
    }
}

impl From<bool> for ImplementationProviderCapability {
    fn from(v: bool) -> (r: ImplementationProviderCapability) {
        ImplementationProviderCapability::Simple(v)
    }
}

impl vstd::std_specs::convert::FromSpecImpl<bool> for ImplementationProviderCapability {
    open spec fn obeys_from_spec() -> bool {
        true
    }

    open spec fn from_spec(v: bool) -> ImplementationProviderCapability {
        ImplementationProviderCapability::Simple(v)
    }
}

impl From<StaticTextDocumentRegistrationOptions> for TypeDefinitionProviderCapability {
    fn from(v: StaticTextDocumentRegistrationOptions) -> (r: TypeDefinitionProviderCapability) {
        TypeDefinitionProviderCapability::Options(v)
    }
}

impl vstd::std_specs::convert::FromSpecImpl<StaticTextDocumentRegistrationOptions> for TypeDefinitionProviderCapability {
    open spec fn obeys_from_spec() -> bool {
        true
    }

    open spec fn from_spec(v: StaticTextDocumentRegistrationOptions) -> TypeDefinitionProviderCapability {
        TypeDefinitionProviderCapability::Options(v)
    }
}

impl From<bool> for TypeDefinitionProviderCapability {
    fn from(v: bool) -> (r: TypeDefinitionProviderCapability) {
        TypeDefinitionProviderCapability::Simple(v)
    }
}

impl vstd::std_specs::convert::FromSpecImpl<bool> for TypeDefinitionProviderCapability {
    open spec fn obeys_from_spec() -> bool {
        true
    }

    open spec fn from_spec(v: bool) -> TypeDefinitionProviderCapability {
        TypeDefinitionProviderCapability::Simple(v)
    }
}

impl From<String> for GlobPattern {
    fn from(v: String) -> (r: GlobPattern) {
        GlobPattern::String(v)
    }
}

impl vstd::std_specs::convert::FromSpecImpl<String> for GlobPattern {
    open spec fn obeys_from_spec() -> bool {
        true
    }

    open spec fn from_spec(v: String) -> GlobPattern {
        GlobPattern::String(v)
    }
}

impl From<RelativePattern> for GlobPattern {
    fn from(v: RelativePattern) -> (r: GlobPattern) {
        GlobPattern::Relative(v)
    }
}

impl vstd::std_specs::convert::FromSpecImpl<RelativePattern> for GlobPattern {
    open spec fn obeys_from_spec() -> bool {
        true
    }

    open spec fn from_spec(v: RelativePattern) -> GlobPattern {
        GlobPattern::Relative(v)
    }
}

impl From<Location> for GotoDefinitionResponse {
    fn from(v: Location) -> (r: GotoDefinitionResponse) {
        GotoDefinitionResponse::Scalar(v)
    }
}

impl vstd::std_specs::convert::FromSpecImpl<Location> for GotoDefinitionResponse {
    open spec fn obeys_from_spec() -> bool {
        true
    }

    open spec fn from_spec(v: Location) -> GotoDefinitionResponse {
        GotoDefinitionResponse::Scalar(v)
    }
}

impl From<Vec<Location>> for GotoDefinitionResponse {
    fn from(v: Vec<Location>) -> (r: GotoDefinitionResponse) {
        GotoDefinitionResponse::Array(v)
    }
}

impl vstd::std_specs::convert::FromSpecImpl<Vec<Location>> for GotoDefinitionResponse {
    open spec fn obeys_from_spec() -> bool {
        true
    }

    open spec fn from_spec(v: Vec<Location>) -> GotoDefinitionResponse {
        GotoDefinitionResponse::Array(v)
    }
}

impl From<Vec<LocationLink>> for GotoDefinitionResponse {
    fn from(v: Vec<LocationLink>) -> (r: GotoDefinitionResponse) {
        GotoDefinitionResponse::Link(v)
    }
}

impl vstd::std_specs::convert::FromSpecImpl<Vec<LocationLink>> for GotoDefinitionResponse {
    open spec fn obeys_from_spec() -> bool {
        true
    }

    open spec fn from_spec(v: Vec<LocationLink>) -> GotoDefinitionResponse {
        GotoDefinitionResponse::Link(v)
    }
}

} // verus!
