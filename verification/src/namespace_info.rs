//! What the auditor records about each namespace it audits.

use vstd::prelude::*;
use crate::akd_configurations::AkdConfiguration;
use crate::versions::Epoch;

verus! {

/// Where a namespace stands in its life cycle.
#[derive(Clone, Copy, Debug, PartialEq, Eq, Structural)]
pub enum NamespaceStatus {
    /// Proofs are being audited and none has failed.
    Online,
    Initialization,
    Disabled,
    /// A signature that was stored earlier could not be found again.
    SignatureLost,
    /// A proof or a stored signature failed verification.
    SignatureVerificationFailed,
}

impl NamespaceStatus {
    /// A namespace is audited only while it is online or initializing.
    pub open spec fn active(self) -> bool {
        self == NamespaceStatus::Online || self == NamespaceStatus::Initialization
    }

    /// The two failure statuses stay until an operator clears them.
    pub open spec fn sticky(self) -> bool {
        self == NamespaceStatus::SignatureLost || self
            == NamespaceStatus::SignatureVerificationFailed
    }

    pub fn is_active(&self) -> (r: bool)
        ensures
            r == self.active(),
    {
        match self {
            NamespaceStatus::Online | NamespaceStatus::Initialization => true,
            _ => false,
        }
    }

    pub fn is_sticky(&self) -> (r: bool)
        ensures
            r == self.sticky(),
    {
        match self {
            NamespaceStatus::SignatureLost | NamespaceStatus::SignatureVerificationFailed => true,
            _ => false,
        }
    }
}

/// The mathematical value of a `NamespaceInfo`.
pub struct NamespaceInfoView {
    pub configuration: AkdConfiguration,
    pub name: Seq<char>,
    pub log_directory: Seq<char>,
    pub last_verified_epoch: Option<Epoch>,
    pub starting_epoch: Epoch,
    pub status: NamespaceStatus,
}

impl NamespaceInfoView {
    /// The last verified epoch, when there is one, is not before the
    /// starting epoch.
    pub open spec fn well_formed(self) -> bool {
        self.last_verified_epoch matches Some(last) ==> last@ >= self.starting_epoch@
    }

    /// The epoch the next poll asks the directory about, when there is one.
    pub open spec fn next_epoch(self) -> Option<u64> {
        match self.last_verified_epoch {
            Some(last) => if last@ < u64::MAX {
                Some((last@ + 1) as u64)
            } else {
                None
            },
            None => Some(self.starting_epoch@),
        }
    }
}

/// State of one audited namespace, identified by `name`.
#[derive(Debug)]
pub struct NamespaceInfo {
    pub configuration: AkdConfiguration,
    pub name: String,
    pub log_directory: String,
    pub last_verified_epoch: Option<Epoch>,
    pub starting_epoch: Epoch,
    pub status: NamespaceStatus,
}

impl View for NamespaceInfo {
    type V = NamespaceInfoView;

    open spec fn view(&self) -> NamespaceInfoView {
        NamespaceInfoView {
            configuration: self.configuration,
            name: self.name@,
            log_directory: self.log_directory@,
            last_verified_epoch: self.last_verified_epoch,
            starting_epoch: self.starting_epoch,
            status: self.status,
        }
    }
}

impl Clone for NamespaceInfo {
    fn clone(&self) -> (copy: NamespaceInfo)
        ensures
            copy@ == self@,
    {
        NamespaceInfo {
            configuration: self.configuration,
            name: self.name.clone(),
            log_directory: self.log_directory.clone(),
            last_verified_epoch: self.last_verified_epoch,
            starting_epoch: self.starting_epoch,
            status: self.status,
        }
    }
}

impl NamespaceInfo {
    /// The same namespace with `epoch` as its last verified epoch.
    pub fn update_last_verified_epoch(&self, epoch: Epoch) -> (updated: NamespaceInfo)
        ensures
            updated@ == (NamespaceInfoView { last_verified_epoch: Some(epoch), ..self@ }),
    {
        NamespaceInfo {
            configuration: self.configuration,
            name: self.name.clone(),
            log_directory: self.log_directory.clone(),
            last_verified_epoch: Some(epoch),
            starting_epoch: self.starting_epoch,
            status: self.status,
        }
    }

    /// The same namespace with `status` as its status.
    pub fn update_status(&self, status: NamespaceStatus) -> (updated: NamespaceInfo)
        ensures
            updated@ == (NamespaceInfoView { status: status, ..self@ }),
    {
        NamespaceInfo {
            configuration: self.configuration,
            name: self.name.clone(),
            log_directory: self.log_directory.clone(),
            last_verified_epoch: self.last_verified_epoch,
            starting_epoch: self.starting_epoch,
            status,
        }
    }

    pub fn is_active(&self) -> (r: bool)
        ensures
            r == self@.status.active(),
    {
        self.status.is_active()
    }

    /// The epoch that the next poll asks the directory about first: the
    /// one after the last verified epoch, or the starting epoch where
    /// nothing has been verified yet. There is none after the last
    /// representable epoch.
    pub fn next_epoch_to_audit(&self) -> (next: Option<Epoch>)
        ensures
            next == (match self@.next_epoch() {
                Some(epoch) => Some(Epoch(epoch)),
                None => None,
            }),
    {
        match self.last_verified_epoch {
            Some(last_verified_epoch) => last_verified_epoch.checked_next(),
            None => Some(self.starting_epoch),
        }
    }
}

} // verus!
