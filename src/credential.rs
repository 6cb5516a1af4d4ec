use vstd::prelude::*;

verus! {

/// An OAuth2 credential. `expiry` is an absolute time in seconds since the
/// Unix epoch, never a duration.
#[derive(Debug, Clone, PartialEq, Eq)]
pub struct Credential {
    pub access_token: String,
    pub refresh_token: String,
    pub expiry: u64,
}

/// The mathematical form of a [`Credential`].
pub struct CredentialModel {
    pub access_token: Seq<char>,
    pub refresh_token: Seq<char>,
    pub expiry: u64,
}

impl View for Credential {
    type V = CredentialModel;

    open spec fn view(&self) -> CredentialModel {
        CredentialModel {
            access_token: self.access_token@,
            refresh_token: self.refresh_token@,
            expiry: self.expiry,
        }
    }
}

/// A credential must be refreshed from its expiry on, the expiry included.
pub open spec fn is_expired(c: CredentialModel, now: u64) -> bool {
    now >= c.expiry
}

impl Credential {
    pub fn new(access_token: String, refresh_token: String, expiry: u64) -> (r: Credential)
        ensures
            r.access_token@ == access_token@,
            r.refresh_token@ == refresh_token@,
            r.expiry == expiry,
    {
        Credential { access_token, refresh_token, expiry }
    }

    /// A copy with the same fields.
    pub fn duplicate(&self) -> (r: Credential)
        ensures
            r@ == self@,
    {
        Credential {
            access_token: self.access_token.clone(),
            refresh_token: self.refresh_token.clone(),
            expiry: self.expiry,
        }
    }

    /// Whether the credential must be refreshed at time `now`.
    pub fn needs_refresh(&self, now: u64) -> (r: bool)
        ensures
            r == is_expired(self@, now),
    {
        now >= self.expiry
    }
}

/// The two persisted records, each under its own key: the credential and the
/// id of the spreadsheet. The caller mirrors them to its storage backend.
pub struct Storage {
    pub credential: Option<Credential>,
    pub spreadsheet_id: Option<String>,
}

/// The mathematical form of a [`Storage`].
pub struct StorageModel {
    pub credential: Option<CredentialModel>,
    pub spreadsheet_id: Option<Seq<char>>,
}

pub open spec fn option_view<T: View>(o: Option<T>) -> Option<T::V> {
    match o {
        Some(v) => Some(v@),
        None => None,
    }
}

impl View for Storage {
    type V = StorageModel;

    open spec fn view(&self) -> StorageModel {
        StorageModel {
            credential: option_view(self.credential),
            spreadsheet_id: option_view(self.spreadsheet_id),
        }
    }
}

/// The records after the credential `c` has been saved: it replaces the old one.
pub open spec fn with_credential(m: StorageModel, c: CredentialModel) -> StorageModel {
    StorageModel { credential: Some(c), ..m }
}

/// The records after the spreadsheet id `id` has been saved.
pub open spec fn with_spreadsheet_id(m: StorageModel, id: Seq<char>) -> StorageModel {
    StorageModel { spreadsheet_id: Some(id), ..m }
}

/// What loading the credential yields.
pub open spec fn loaded_credential(m: StorageModel) -> Option<CredentialModel> {
    m.credential
}

/// What loading the spreadsheet id yields.
pub open spec fn loaded_spreadsheet_id(m: StorageModel) -> Option<Seq<char>> {
    m.spreadsheet_id
}

impl Storage {
    /// Records as they stand in a fresh installation: neither is present.
    pub fn empty() -> (r: Storage)
        ensures
            r@.credential is None,
            r@.spreadsheet_id is None,
    {
        Storage { credential: None, spreadsheet_id: None }
    }

    /// Records as the caller's backend returned them.
    pub fn from_records(credential: Option<Credential>, spreadsheet_id: Option<String>) -> (r:
        Storage)
        ensures
            r@.credential == option_view(credential),
            r@.spreadsheet_id == option_view(spreadsheet_id),
    {
        Storage { credential, spreadsheet_id }
    }

    /// Saves `c` as the sole credential record.
    pub fn save_credential(&mut self, c: Credential)
        ensures
            final(self)@ == with_credential(old(self)@, c@),
    {
        self.credential = Some(c);
    }

    /// Loads the credential record, if any.
    pub fn load_credential(&self) -> (r: Option<Credential>)
        ensures
            option_view(r) == loaded_credential(self@),
    {
        match &self.credential {
            Some(c) => Some(c.duplicate()),
            None => None,
        }
    }

    /// Saves `id` as the spreadsheet id record.
    pub fn save_spreadsheet_id(&mut self, id: String)
        ensures
            final(self)@ == with_spreadsheet_id(old(self)@, id@),
    {
        self.spreadsheet_id = Some(id);
    }

    /// Loads the spreadsheet id record, if any.
    pub fn load_spreadsheet_id(&self) -> (r: Option<String>)
        ensures
            option_view(r) == loaded_spreadsheet_id(self@),
    {
        match &self.spreadsheet_id {
            Some(id) => Some(id.clone()),
            None => None,
        }
    }
}

/// Saving a credential and then loading it yields the same credential, and
/// leaves the spreadsheet id record as it was.
pub proof fn lemma_save_then_load(m: StorageModel, c: CredentialModel)
    ensures
        loaded_credential(with_credential(m, c)) == Some(c),
        loaded_spreadsheet_id(with_credential(m, c)) == loaded_spreadsheet_id(m),
{
}

/// Saving a spreadsheet id and then loading it yields the same id, and leaves
/// the credential record as it was.
pub proof fn lemma_save_then_load_spreadsheet_id(m: StorageModel, id: Seq<char>)
    ensures
        loaded_spreadsheet_id(with_spreadsheet_id(m, id)) == Some(id),
        loaded_credential(with_spreadsheet_id(m, id)) == loaded_credential(m),
{
}

} // verus!
