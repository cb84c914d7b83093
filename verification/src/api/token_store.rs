use vstd::prelude::*;

verus! {

/// A point in time, as seconds and nanoseconds since the Unix epoch.
#[derive(Clone, Copy, Debug, PartialEq, Eq)]
pub struct Timestamp {
    pub secs: u64,
    pub nanos: u32,
}

/// The credentials of a logged-in user.
#[derive(Debug, PartialEq, Eq)]
pub struct Credentials {
    pub access_token: String,
    pub refresh_token: String,
    /// Approximate time at which the access token expires.
    pub token_expiry_time: Option<Timestamp>,
}

impl Clone for Credentials {
    fn clone(&self) -> (r: Self)
        ensures
            r == *self,
    {
        Credentials {
            access_token: self.access_token.clone(),
            refresh_token: self.refresh_token.clone(),
            token_expiry_time: self.token_expiry_time,
        }
    }
}

/// What a lookup of the credentials finds.
#[derive(Debug, PartialEq, Eq)]
pub enum TokenLookup {
    /// The credentials were cached.
    Cached(Credentials),
    /// Nothing is cached: the credentials must be retrieved from the keyring.
    Retrieve,
}

/// Why credentials could not be read from the keyring.
#[derive(Clone, Copy, Debug, PartialEq, Eq)]
pub enum TokenStoreError {
    /// The keyring holds no credentials.
    EmptyKeyring,
}

/// What a lookup finds when `cached` is in the cache.
pub open spec fn spec_lookup(cached: Option<Credentials>) -> TokenLookup {
    match cached {
        Some(c) => TokenLookup::Cached(c),
        None => TokenLookup::Retrieve,
    }
}

/// The cache after a retrieval from the keyring: a success is cached, a failure changes
/// nothing.
pub open spec fn spec_after_retrieval(cached: Option<Credentials>, retrieved: Option<Credentials>) -> Option<Credentials> {
    match retrieved {
        Some(c) => Some(c),
        None => cached,
    }
}

/// Credentials cached in memory, in front of the system keyring.
pub struct TokenStore {
    storage: Option<Credentials>,
}

impl View for TokenStore {
    type V = Option<Credentials>;

    /// The cached credentials.
    closed spec fn view(&self) -> Option<Credentials> {
        self.storage
    }
}

impl TokenStore {
    /// An empty store.
    pub fn new() -> (r: Self)
        ensures
            r@ is None,
    {
        TokenStore { storage: None }
    }

    /// A copy of the cached credentials.
    pub fn get_cached_blocking(&self) -> (r: Option<Credentials>)
        ensures
            r == self@,
    {
        match &self.storage {
            Some(c) => Some(c.clone()),
            None => None,
        }
    }

    /// A copy of the cached credentials.
    pub fn get_cached(&self) -> (r: Option<Credentials>)
        ensures
            r == self@,
    {
        self.get_cached_blocking()
    }

    /// Looks the credentials up: the cached ones when there are, else the keyring must be asked.
    pub fn get(&self) -> (r: TokenLookup)
        ensures
            r == spec_lookup(self@),
    {
        match self.get_cached_blocking() {
            Some(c) => TokenLookup::Cached(c),
            None => TokenLookup::Retrieve,
        }
    }

    /// Takes in what the keyring gave (`None` when it failed) and answers the lookup: retrieved
    /// credentials are cached and returned.
    pub fn store_retrieved(&mut self, retrieved: Option<Credentials>) -> (r: Option<Credentials>)
        ensures
            final(self)@ == spec_after_retrieval(old(self)@, retrieved),
            r == retrieved,
    {
        match retrieved {
            Some(c) => {
                self.storage = Some(c.clone());
                Some(c)
            },
            None => None,
        }
    }

    /// Caches new credentials (once the attempt to save them in the keyring is over, whatever
    /// its outcome).
    pub fn set(&mut self, creds: Credentials)
        ensures
            final(self)@ == Some(creds),
    {
        self.storage = Some(creds);
    }

    /// Forgets the cached credentials (once the attempt to clear the keyring is over, whatever
    /// its outcome).
    pub fn clear(&mut self)
        ensures
            final(self)@ is None,
    {
        self.storage = None;
    }

    /// Which of the keyring items found holds the credentials: the first one, or an error when
    /// none was found.
    pub fn retrieve_target(item_count: usize) -> (r: Result<usize, TokenStoreError>)
        ensures
            item_count > 0 ==> r == Ok::<usize, TokenStoreError>(0),
            item_count == 0 ==> r == Err::<usize, TokenStoreError>(TokenStoreError::EmptyKeyring),
    {
        if item_count > 0 {
            Ok(0)
        } else {
            Err(TokenStoreError::EmptyKeyring)
        }
    }

    /// Which of the keyring items found a logout deletes: the first one, or none when the
    /// keyring is empty (which is no error).
    pub fn logout_target(item_count: usize) -> (r: Option<usize>)
        ensures
            item_count > 0 ==> r == Some(0usize),
            item_count == 0 ==> r is None,
    {
        if item_count > 0 {
            Some(0)
        } else {
            None
        }
    }
}

/// A read after a write gives back what was written; a read after a clear finds nothing
/// cached and asks the keyring.
pub proof fn lemma_read_after_write(creds: Credentials)
    ensures
        spec_lookup(Some(creds)) == TokenLookup::Cached(creds),
        spec_lookup(None) == TokenLookup::Retrieve,
{
}

/// Once a retrieval succeeded, the next lookup is answered from the cache with the retrieved
/// credentials; a failed retrieval leaves the cache as it was.
pub proof fn lemma_retrieval_is_cached(cached: Option<Credentials>, creds: Credentials)
    ensures
        spec_lookup(spec_after_retrieval(cached, Some(creds))) == TokenLookup::Cached(creds),
        spec_after_retrieval(cached, None) == cached,
{
}

} // verus!
