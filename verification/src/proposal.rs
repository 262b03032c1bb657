//! The proposal zome's entry types: what each type is, who sees it, how it is
//! validated, and which links it may have.
use vstd::prelude::*;

verus! {

/// The entry types the proposal zome stores.
pub enum ProposalEntryType {
    /// A proposal: a published request or offer.
    Proposal,
    /// The base anchor that a proposal's address starts from.
    ProposalBase,
}

/// The link types the proposal zome defines.
pub enum ProposalLinkType {
    /// From a base anchor to the proposal's initial entry.
    InitialEntry,
}

/// Who can see entries of a type.
pub enum Sharing {
    Public,
    Private,
    Encrypted,
}

/// What a validator is sent alongside an entry.
pub enum ValidationPackage {
    Entry,
    ChainEntries,
    ChainHeaders,
    ChainFull,
}

/// A link that entries of a type may have to entries of another type.
pub struct LinkDefinition {
    pub target: ProposalEntryType,
    pub link_type: ProposalLinkType,
    pub validation_package: ValidationPackage,
}

/// The definition of an entry type.
pub struct EntryDefinition {
    pub name: ProposalEntryType,
    pub description: String,
    pub sharing: Sharing,
    pub validation_package: ValidationPackage,
    pub links: Vec<LinkDefinition>,
}

/// The description of the proposal entry type.
pub open spec fn proposal_description() -> Seq<char> {
    "Published requests or offers, sometimes with what is expected in return."@
}

/// The description of the proposal base entry type.
pub open spec fn proposal_base_description() -> Seq<char> {
    "Base anchor for initial proposal addresses to provide lookup functionality"@
}

/// The proposal entry type: public, validated on the entry alone, with no
/// links of its own.
pub fn entry_def() -> (d: EntryDefinition)
    ensures
        d.name == ProposalEntryType::Proposal,
        d.description@ == proposal_description(),
        d.sharing == Sharing::Public,
        d.validation_package == ValidationPackage::Entry,
        d.links@.len() == 0,
{
    EntryDefinition {
        name: ProposalEntryType::Proposal,
        description: "Published requests or offers, sometimes with what is expected in return.".to_owned(),
        sharing: Sharing::Public,
        validation_package: ValidationPackage::Entry,
        links: Vec::new(),
    }
}

/// The proposal base anchor type: public, validated on the entry alone, with
/// one link type, to the proposal's initial entry.
pub fn base_entry_def() -> (d: EntryDefinition)
    ensures
        d.name == ProposalEntryType::ProposalBase,
        d.description@ == proposal_base_description(),
        d.sharing == Sharing::Public,
        d.validation_package == ValidationPackage::Entry,
        d.links@ == seq![
            LinkDefinition {
                target: ProposalEntryType::Proposal,
                link_type: ProposalLinkType::InitialEntry,
                validation_package: ValidationPackage::Entry,
            },
        ],
{
    let mut links: Vec<LinkDefinition> = Vec::new();
    links.push(
        LinkDefinition {
            target: ProposalEntryType::Proposal,
            link_type: ProposalLinkType::InitialEntry,
            validation_package: ValidationPackage::Entry,
        },
    );
    EntryDefinition {
        name: ProposalEntryType::ProposalBase,
        description: "Base anchor for initial proposal addresses to provide lookup functionality".to_owned(),
        sharing: Sharing::Public,
        validation_package: ValidationPackage::Entry,
        links,
    }
}

/// Validates a proposal entry, base anchor or link: every one is accepted.
pub fn validate<T>(_data: &T) -> (r: Result<(), String>)
    ensures
        r is Ok,
{
    Ok(())
}

} // verus!
