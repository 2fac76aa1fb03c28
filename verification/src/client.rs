//! The client: what a process hands over once, at its start, and the
//! collaborators that it brings along.

use crate::bootstrap::{AuthFlow, Bootstrap, BootstrapEvent, Prompt};
use crate::handler::Module;
use std::sync::Arc;
use vstd::prelude::*;

verus! {

/// What a collaborator reports when it cannot do what it was asked.
#[derive(Debug, PartialEq, Eq)]
pub struct ProviderError {
    pub message: String,
}

/// Supplies the token of a bot account.
pub trait AuthWithBotToken: Send + Sync {
    fn input_bot_token(&self) -> Result<String, ProviderError>;
}

/// Supplies what a user account signs in with.
pub trait AuthWithPhoneAndCode: Send + Sync {
    fn input_phone(&self) -> Result<String, ProviderError>;

    fn input_code(&self) -> Result<String, ProviderError>;

    fn input_password(&self) -> Result<String, ProviderError>;
}

/// Keeps the session between two runs of the process.
pub trait SessionStore: Send + Sync {
    fn on_save_session(&self, data: Vec<u8>) -> Result<(), ProviderError>;

    fn on_load_session(&self) -> Result<Option<Vec<u8>>, ProviderError>;
}

/// A session store as a client holds it.
pub struct StoreHandle {
    pub store: Box<dyn SessionStore>,
}

/// The credential provider, which also settles the flow of the sign-in.
pub enum Auth {
    AuthWithBotToken(Box<dyn AuthWithBotToken>),
    AuthWithPhoneAndCode(Box<dyn AuthWithPhoneAndCode>),
}

/// Why a prompt brought no credential.
#[derive(Debug, PartialEq, Eq)]
pub enum PromptError {
    /// The provider at hand belongs to the other flow.
    WrongFlow,
    /// The provider failed.
    Provider(ProviderError),
}

impl Auth {
    /// The flow that this provider serves.
    pub open spec fn flow_of(&self) -> AuthFlow {
        match self {
            Auth::AuthWithBotToken(_) => AuthFlow::BotToken,
            Auth::AuthWithPhoneAndCode(_) => AuthFlow::PhoneAndCode,
        }
    }

    /// The flow that this provider serves.
    pub fn flow(&self) -> (flow: AuthFlow)
        ensures
            flow == self.flow_of(),
    {
        match self {
            Auth::AuthWithBotToken(_) => AuthFlow::BotToken,
            Auth::AuthWithPhoneAndCode(_) => AuthFlow::PhoneAndCode,
        }
    }

    /// Puts `prompt` to the provider. A prompt of the other flow is refused
    /// without asking anybody; any other prompt is answered by the provider.
    pub fn answer(&self, prompt: Prompt) -> (answer: Result<String, PromptError>)
        ensures
            prompt.flow_of() != self.flow_of() ==> answer == Err::<String, PromptError>(
                PromptError::WrongFlow,
            ),
            prompt.flow_of() == self.flow_of() ==> !(answer matches Err(PromptError::WrongFlow)),
    {
        let supplied = match (self, prompt) {
            (Auth::AuthWithBotToken(provider), Prompt::BotToken) => provider.input_bot_token(),
            (Auth::AuthWithPhoneAndCode(provider), Prompt::Phone) => provider.input_phone(),
            (Auth::AuthWithPhoneAndCode(provider), Prompt::Code) => provider.input_code(),
            (Auth::AuthWithPhoneAndCode(provider), Prompt::Password) => provider.input_password(),
            _ => {
                return Err(PromptError::WrongFlow);
            },
        };
        match supplied {
            Ok(credential) => Ok(credential),
            Err(error) => Err(PromptError::Provider(error)),
        }
    }
}

/// What the bootstrap is told when a prompt has been answered with `answer`.
pub fn credential_event(answer: Result<String, PromptError>) -> (event: BootstrapEvent)
    ensures
        event == match answer {
            Ok(credential) => BootstrapEvent::Credential(credential),
            Err(_) => BootstrapEvent::Failed,
        },
{
    match answer {
        Ok(credential) => BootstrapEvent::Credential(credential),
        Err(_) => BootstrapEvent::Failed,
    }
}

/// What the bootstrap is told when the session store has answered `saved` to
/// the request to save the new session.
pub fn saved_event(saved: Result<(), ProviderError>) -> (event: BootstrapEvent)
    ensures
        event == match saved {
            Ok(()) => BootstrapEvent::SessionSaved,
            Err(_) => BootstrapEvent::Failed,
        },
{
    match saved {
        Ok(()) => BootstrapEvent::SessionSaved,
        Err(_) => BootstrapEvent::Failed,
    }
}

/// A bot token that is known beforehand.
pub struct StaticBotToken {
    pub token: String,
}

impl AuthWithBotToken for StaticBotToken {
    /// Always succeeds, with the token.
    fn input_bot_token(&self) -> (supplied: Result<String, ProviderError>)
        ensures
            supplied is Ok,
            supplied->Ok_0@ == self.token@,
    {
        Ok(self.token.clone())
    }
}

/// A session store that keeps the session in one file.
pub struct FileSessionStore {
    pub path: String,
}

/// How the connection presents itself to the remote side. A process that sets
/// nothing connects directly.
#[derive(Debug, PartialEq, Eq)]
pub struct InitParams {
    /// The proxy to connect through, as a URL.
    pub proxy_url: Option<String>,
}

impl InitParams {
    /// The parameters as plain values.
    pub open spec fn view(&self) -> Option<Seq<char>> {
        match self.proxy_url {
            Some(url) => Some(url@),
            None => None,
        }
    }
}

impl Default for InitParams {
    /// No proxy.
    fn default() -> (params: InitParams)
        ensures
            params.proxy_url is None,
    {
        InitParams { proxy_url: None }
    }
}

impl Clone for InitParams {
    fn clone(&self) -> (copy: InitParams)
        ensures
            copy@ == self@,
    {
        match &self.proxy_url {
            Some(url) => InitParams { proxy_url: Some(url.clone()) },
            None => InitParams { proxy_url: None },
        }
    }
}

/// The session that a connection starts from.
#[derive(Debug, PartialEq, Eq)]
pub enum SessionSource {
    /// Nothing was stored: a new session.
    Fresh,
    /// The bytes that the session store gave back.
    Stored(Vec<u8>),
}

/// The session to start from when the session store answered `loaded`.
pub fn session_from(loaded: Result<Option<Vec<u8>>, ProviderError>) -> (session: Result<
    SessionSource,
    ProviderError,
>)
    ensures
        session == match loaded {
            Ok(Some(data)) => Ok::<SessionSource, ProviderError>(SessionSource::Stored(data)),
            Ok(None) => Ok(SessionSource::Fresh),
            Err(error) => Err(error),
        },
{
    match loaded {
        Ok(Some(data)) => Ok(SessionSource::Stored(data)),
        Ok(None) => Ok(SessionSource::Fresh),
        Err(error) => Err(error),
    }
}

/// Everything that a connect needs.
#[derive(Debug, PartialEq, Eq)]
pub struct ConnectConfig {
    pub session: SessionSource,
    pub api_id: i32,
    pub api_hash: String,
    pub params: InitParams,
}

/// The configured client: the registry, the application's credentials with the
/// remote service, the credential provider and the session store.
pub struct Client {
    pub modules: Arc<Vec<Module>>,
    api_id: i32,
    api_hash: String,
    auth: Auth,
    session_store: StoreHandle,
    init_params: Option<InitParams>,
}

impl Client {
    /// The registry.
    pub closed spec fn spec_modules(&self) -> Vec<Module> {
        *self.modules
    }

    /// The application id.
    pub closed spec fn spec_api_id(&self) -> i32 {
        self.api_id
    }

    /// The application hash.
    pub closed spec fn spec_api_hash(&self) -> String {
        self.api_hash
    }

    /// The credential provider.
    pub closed spec fn spec_auth(&self) -> Auth {
        self.auth
    }

    /// The session store.
    pub closed spec fn spec_session_store(&self) -> StoreHandle {
        self.session_store
    }

    /// The connection parameters, where some were set.
    pub closed spec fn spec_init_params(&self) -> Option<InitParams> {
        self.init_params
    }

    /// The registry.
    pub fn modules(&self) -> (modules: &Vec<Module>)
        ensures
            *modules == self.spec_modules(),
    {
        &self.modules
    }

    /// The application id.
    pub fn api_id(&self) -> (id: i32)
        ensures
            id == self.spec_api_id(),
    {
        self.api_id
    }

    /// The application hash.
    pub fn api_hash(&self) -> (hash: &String)
        ensures
            *hash == self.spec_api_hash(),
    {
        &self.api_hash
    }

    /// The credential provider.
    pub fn auth(&self) -> (auth: &Auth)
        ensures
            *auth == self.spec_auth(),
    {
        &self.auth
    }

    /// The session store.
    pub fn session_store(&self) -> (handle: &StoreHandle)
        ensures
            *handle == self.spec_session_store(),
    {
        &self.session_store
    }

    /// The connection parameters, where some were set.
    pub fn init_params(&self) -> (params: &Option<InitParams>)
        ensures
            *params == self.spec_init_params(),
    {
        &self.init_params
    }

    /// A bootstrap for this client: it signs in by the flow of the client's
    /// credential provider.
    pub fn bootstrap(&self) -> (bootstrap: Bootstrap)
        ensures
            bootstrap == Bootstrap::initial(self.spec_auth().flow_of()),
    {
        Bootstrap::new(self.auth.flow())
    }

    /// Asks the session store for the stored session and tells what to start
    /// from. What the store answers is the store's affair; `session_from` says
    /// what is made of each answer.
    pub fn load_session(&self) -> Result<SessionSource, ProviderError> {
        session_from(self.session_store.store.on_load_session())
    }

    /// Hands the new session to the session store and tells the bootstrap how
    /// that went. What the store answers is the store's affair; `saved_event`
    /// says what is made of each answer.
    pub fn save_session(&self, data: Vec<u8>) -> (event: BootstrapEvent)
        ensures
            event == BootstrapEvent::SessionSaved || event == BootstrapEvent::Failed,
    {
        saved_event(self.session_store.store.on_save_session(data))
    }

    /// What a connect needs, given the session to start from: the client's
    /// application id and hash, and its connection parameters, or the default
    /// ones where none were set.
    pub fn connect_config(&self, session: SessionSource) -> (config: ConnectConfig)
        ensures
            config.session == session,
            config.api_id == self.spec_api_id(),
            config.api_hash@ == self.spec_api_hash()@,
            config.params@ == match self.spec_init_params() {
                Some(params) => params@,
                None => None,
            },
    {
        let params = match &self.init_params {
            Some(params) => params.clone(),
            None => InitParams::default(),
        };
        ConnectConfig { session, api_id: self.api_id, api_hash: self.api_hash.clone(), params }
    }
}

/// A setting that a client cannot be built without.
#[derive(Clone, Copy, Debug, PartialEq, Eq, Structural)]
pub enum Setting {
    Modules,
    ApiId,
    ApiHash,
    Auth,
    SessionStore,
}

/// Collects the settings of a client one by one.
pub struct ClientBuilder {
    api_id: Option<i32>,
    api_hash: Option<String>,
    auth: Option<Auth>,
    session_store: Option<StoreHandle>,
    modules: Option<Arc<Vec<Module>>>,
    init_params: Option<InitParams>,
}

impl ClientBuilder {
    /// The application id, where it was set.
    pub closed spec fn spec_api_id(&self) -> Option<i32> {
        self.api_id
    }

    /// The application hash, where it was set.
    pub closed spec fn spec_api_hash(&self) -> Option<String> {
        self.api_hash
    }

    /// The credential provider, where it was set.
    pub closed spec fn spec_auth(&self) -> Option<Auth> {
        self.auth
    }

    /// The session store, where it was set.
    pub closed spec fn spec_session_store(&self) -> Option<StoreHandle> {
        self.session_store
    }

    /// The registry, where it was set.
    pub closed spec fn spec_modules(&self) -> Option<Vec<Module>> {
        match self.modules {
            Some(modules) => Some(*modules),
            None => None,
        }
    }

    /// The connection parameters, where some were set.
    pub closed spec fn spec_init_params(&self) -> Option<InitParams> {
        self.init_params
    }

    /// The first setting that is still missing, in the order modules,
    /// application id, application hash, credential provider, session store.
    pub open spec fn spec_missing(&self) -> Option<Setting> {
        if self.spec_modules() is None {
            Some(Setting::Modules)
        } else if self.spec_api_id() is None {
            Some(Setting::ApiId)
        } else if self.spec_api_hash() is None {
            Some(Setting::ApiHash)
        } else if self.spec_auth() is None {
            Some(Setting::Auth)
        } else if self.spec_session_store() is None {
            Some(Setting::SessionStore)
        } else {
            None
        }
    }

    /// A builder with nothing set.
    pub fn new() -> (builder: Self)
        ensures
            builder.spec_api_id() is None,
            builder.spec_api_hash() is None,
            builder.spec_auth() is None,
            builder.spec_session_store() is None,
            builder.spec_modules() is None,
            builder.spec_init_params() is None,
    {
        Self {
            api_id: None,
            api_hash: None,
            auth: None,
            session_store: None,
            modules: None,
            init_params: None,
        }
    }

    /// Sets the application id and leaves every other setting as it is.
    pub fn set_api_id(&mut self, api_id: i32)
        ensures
            final(self).spec_api_id() == Some(api_id),
            final(self).spec_api_hash() == old(self).spec_api_hash(),
            final(self).spec_auth() == old(self).spec_auth(),
            final(self).spec_session_store() == old(self).spec_session_store(),
            final(self).spec_modules() == old(self).spec_modules(),
            final(self).spec_init_params() == old(self).spec_init_params(),
    {
        self.api_id = Some(api_id)
    }

    /// The builder with the application id set to `api_id`.
    pub fn with_api_id(self, api_id: i32) -> (builder: Self)
        ensures
            builder.spec_api_id() == Some(api_id),
            builder.spec_api_hash() == self.spec_api_hash(),
            builder.spec_auth() == self.spec_auth(),
            builder.spec_session_store() == self.spec_session_store(),
            builder.spec_modules() == self.spec_modules(),
            builder.spec_init_params() == self.spec_init_params(),
    {
        let mut builder = self;
        builder.set_api_id(api_id);
        builder
    }

    /// Sets the application hash and leaves every other setting as it is.
    pub fn set_api_hash(&mut self, api_hash: String)
        ensures
            final(self).spec_api_hash() == Some(api_hash),
            final(self).spec_api_id() == old(self).spec_api_id(),
            final(self).spec_auth() == old(self).spec_auth(),
            final(self).spec_session_store() == old(self).spec_session_store(),
            final(self).spec_modules() == old(self).spec_modules(),
            final(self).spec_init_params() == old(self).spec_init_params(),
    {
        self.api_hash = Some(api_hash)
    }

    /// The builder with the application hash set to `api_hash`.
    pub fn with_api_hash(self, api_hash: String) -> (builder: Self)
        ensures
            builder.spec_api_hash() == Some(api_hash),
            builder.spec_api_id() == self.spec_api_id(),
            builder.spec_auth() == self.spec_auth(),
            builder.spec_session_store() == self.spec_session_store(),
            builder.spec_modules() == self.spec_modules(),
            builder.spec_init_params() == self.spec_init_params(),
    {
        let mut builder = self;
        builder.set_api_hash(api_hash);
        builder
    }

    /// Sets the credential provider and leaves every other setting as it is.
    pub fn set_auth(&mut self, auth: Auth)
        ensures
            final(self).spec_auth() == Some(auth),
            final(self).spec_api_id() == old(self).spec_api_id(),
            final(self).spec_api_hash() == old(self).spec_api_hash(),
            final(self).spec_session_store() == old(self).spec_session_store(),
            final(self).spec_modules() == old(self).spec_modules(),
            final(self).spec_init_params() == old(self).spec_init_params(),
    {
        self.auth = Some(auth)
    }

    /// The builder with the credential provider set to `auth`.
    pub fn with_auth(self, auth: Auth) -> (builder: Self)
        ensures
            builder.spec_auth() == Some(auth),
            builder.spec_api_id() == self.spec_api_id(),
            builder.spec_api_hash() == self.spec_api_hash(),
            builder.spec_session_store() == self.spec_session_store(),
            builder.spec_modules() == self.spec_modules(),
            builder.spec_init_params() == self.spec_init_params(),
    {
        let mut builder = self;
        builder.set_auth(auth);
        builder
    }

    /// Sets the session store and leaves every other setting as it is.
    pub fn set_session_store(&mut self, session_store: Box<dyn SessionStore>)
        ensures
            final(self).spec_session_store() == Some(StoreHandle { store: session_store }),
            final(self).spec_api_id() == old(self).spec_api_id(),
            final(self).spec_api_hash() == old(self).spec_api_hash(),
            final(self).spec_auth() == old(self).spec_auth(),
            final(self).spec_modules() == old(self).spec_modules(),
            final(self).spec_init_params() == old(self).spec_init_params(),
    {
        self.session_store = Some(StoreHandle { store: session_store })
    }

    /// The builder with the session store set to `session_store`.
    pub fn with_session_store(self, session_store: Box<dyn SessionStore>) -> (builder: Self)
        ensures
            builder.spec_session_store() == Some(StoreHandle { store: session_store }),
            builder.spec_api_id() == self.spec_api_id(),
            builder.spec_api_hash() == self.spec_api_hash(),
            builder.spec_auth() == self.spec_auth(),
            builder.spec_modules() == self.spec_modules(),
            builder.spec_init_params() == self.spec_init_params(),
    {
        let mut builder = self;
        builder.session_store = Some(StoreHandle { store: session_store });
        builder
    }

    /// Sets the registry and leaves every other setting as it is.
    pub fn set_modules(&mut self, modules: Vec<Module>)
        ensures
            final(self).spec_modules() == Some(modules),
            final(self).spec_api_id() == old(self).spec_api_id(),
            final(self).spec_api_hash() == old(self).spec_api_hash(),
            final(self).spec_auth() == old(self).spec_auth(),
            final(self).spec_session_store() == old(self).spec_session_store(),
            final(self).spec_init_params() == old(self).spec_init_params(),
    {
        self.modules = Some(Arc::new(modules))
    }

    /// The builder with the registry set to `modules`.
    pub fn with_modules(self, modules: Vec<Module>) -> (builder: Self)
        ensures
            builder.spec_modules() == Some(modules),
            builder.spec_api_id() == self.spec_api_id(),
            builder.spec_api_hash() == self.spec_api_hash(),
            builder.spec_auth() == self.spec_auth(),
            builder.spec_session_store() == self.spec_session_store(),
            builder.spec_init_params() == self.spec_init_params(),
    {
        let mut builder = self;
        builder.set_modules(modules);
        builder
    }

    /// Sets the connection parameters, or takes them back with `None`.
    pub fn set_init_params(&mut self, init_params: Option<InitParams>)
        ensures
            final(self).spec_init_params() == init_params,
            final(self).spec_api_id() == old(self).spec_api_id(),
            final(self).spec_api_hash() == old(self).spec_api_hash(),
            final(self).spec_auth() == old(self).spec_auth(),
            final(self).spec_session_store() == old(self).spec_session_store(),
            final(self).spec_modules() == old(self).spec_modules(),
    {
        self.init_params = init_params
    }

    /// The builder with the connection parameters set to `init_params`.
    pub fn with_init_params(self, init_params: Option<InitParams>) -> (builder: Self)
        ensures
            builder.spec_init_params() == init_params,
            builder.spec_api_id() == self.spec_api_id(),
            builder.spec_api_hash() == self.spec_api_hash(),
            builder.spec_auth() == self.spec_auth(),
            builder.spec_session_store() == self.spec_session_store(),
            builder.spec_modules() == self.spec_modules(),
    {
        let mut builder = self;
        builder.set_init_params(init_params);
        builder
    }

    /// The first setting that is still missing, if one is.
    pub fn missing(&self) -> (missing: Option<Setting>)
        ensures
            missing == self.spec_missing(),
    {
        if self.modules.is_none() {
            Some(Setting::Modules)
        } else if self.api_id.is_none() {
            Some(Setting::ApiId)
        } else if self.api_hash.is_none() {
            Some(Setting::ApiHash)
        } else if self.auth.is_none() {
            Some(Setting::Auth)
        } else if self.session_store.is_none() {
            Some(Setting::SessionStore)
        } else {
            None
        }
    }

    /// Builds the client from the settings made. All but the connection
    /// parameters must have been set.
    pub fn build(self) -> (built: Result<Client, Setting>)
        requires
            self.spec_missing() is None,
        ensures
            built is Ok,
            Some(built->Ok_0.spec_modules()) == self.spec_modules(),
            Some(built->Ok_0.spec_api_id()) == self.spec_api_id(),
            Some(built->Ok_0.spec_api_hash()) == self.spec_api_hash(),
            Some(built->Ok_0.spec_auth()) == self.spec_auth(),
            Some(built->Ok_0.spec_session_store()) == self.spec_session_store(),
            built->Ok_0.spec_init_params() == self.spec_init_params(),
    {
        match (self.modules, self.api_id, self.api_hash, self.auth, self.session_store) {
            (Some(modules), Some(api_id), Some(api_hash), Some(auth), Some(session_store)) => Ok(
                Client {
                    modules,
                    api_id,
                    api_hash,
                    auth,
                    session_store,
                    init_params: self.init_params,
                },
            ),
            (None, _, _, _, _) => Err(Setting::Modules),
            (_, None, _, _, _) => Err(Setting::ApiId),
            (_, _, None, _, _) => Err(Setting::ApiHash),
            (_, _, _, None, _) => Err(Setting::Auth),
            (_, _, _, _, None) => Err(Setting::SessionStore),
        }
    }
}

} // verus!
