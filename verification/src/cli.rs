//! The command line's arguments, as plain data. Paths are kept as text.
use vstd::prelude::*;

verus! {

#[derive(Debug)]
pub struct Cli {
    pub command: Command,
}

#[derive(Debug)]
pub enum Command {
    /// Manage Monarch auth and local session state.
    Auth { command: AuthCommand },
    /// List Monarch accounts.
    Accounts(JsonSessionArgs),
    /// List Monarch categories.
    Categories(JsonSessionArgs),
    /// Search Monarch transactions.
    Transactions(TransactionArgs),
    /// Update one transaction.
    Transaction { command: TransactionCommand },
    /// Run an arbitrary GraphQL document against Monarch.
    Gql(GqlArgs),
    /// Validate local config and API connectivity.
    Doctor(DoctorArgs),
    /// Install mon into ~/.local/bin.
    Install(InstallArgs),
}

#[derive(Debug)]
pub enum AuthCommand {
    /// Login with email/password and save the returned session token.
    Login(LoginArgs),
    /// Save an existing Monarch token without logging in.
    Token(TokenArgs),
    /// Show auth status.
    Status(StatusArgs),
    /// Remove the saved session token.
    Logout(LogoutArgs),
}

#[derive(Debug)]
pub enum TransactionCommand {
    /// Change the category of one exact transaction.
    Update(TransactionUpdateArgs),
}

#[derive(Debug)]
pub struct JsonSessionArgs {
    pub json: bool,
    pub browser: BrowserArgs,
    pub session_file: Option<String>,
}

#[derive(Debug)]
pub struct LoginArgs {
    pub email: Option<String>,
    pub password_stdin: bool,
    pub mfa_code: Option<String>,
    pub force: bool,
    pub no_save: bool,
    pub session_file: Option<String>,
}

#[derive(Debug)]
pub struct TokenArgs {
    pub token: Option<String>,
    pub token_stdin: bool,
    pub session_file: Option<String>,
}

#[derive(Debug)]
pub struct StatusArgs {
    pub online: bool,
    pub json: bool,
    pub browser: BrowserArgs,
    pub session_file: Option<String>,
}

#[derive(Debug)]
pub struct LogoutArgs {
    pub session_file: Option<String>,
}

#[derive(Debug)]
pub struct TransactionArgs {
    /// Earliest transaction date, YYYY-MM-DD; paired with `end_date`.
    pub start_date: Option<String>,
    /// Latest transaction date, YYYY-MM-DD; paired with `start_date`.
    pub end_date: Option<String>,
    pub search: String,
    pub limit: u32,
    pub offset: u32,
    pub json: bool,
    pub browser: BrowserArgs,
    pub session_file: Option<String>,
}

#[derive(Debug)]
pub struct TransactionUpdateArgs {
    pub transaction_id: String,
    /// Target category by exact (trimmed, case-insensitive) name.
    pub category: Option<String>,
    /// Target category by id.
    pub category_id: Option<String>,
    pub dry_run: bool,
    pub json: bool,
    pub browser: BrowserArgs,
    pub session_file: Option<String>,
}

#[derive(Debug)]
pub struct GqlArgs {
    pub operation: String,
    pub query_file: String,
    pub variables: Option<String>,
    pub full: bool,
    pub browser: BrowserArgs,
    pub session_file: Option<String>,
}

#[derive(Debug)]
pub struct DoctorArgs {
    pub online: bool,
    pub json: bool,
    pub browser: BrowserArgs,
    pub session_file: Option<String>,
}

#[derive(Debug)]
pub struct InstallArgs {
    pub bin_dir: Option<String>,
    pub force: bool,
}

#[derive(Debug)]
pub struct BrowserArgs {
    pub browser: bool,
    pub browser_tab_id: Option<u64>,
    pub browser_id: Option<String>,
    pub bro_mcp_url: Option<String>,
    pub bro_settings: Option<String>,
}

impl Default for BrowserArgs {
    fn default() -> (r: Self)
        ensures
            !r.browser,
            r.browser_tab_id is None,
            r.browser_id is None,
            r.bro_mcp_url is None,
            r.bro_settings is None,
    {
        BrowserArgs {
            browser: false,
            browser_tab_id: None,
            browser_id: None,
            bro_mcp_url: None,
            bro_settings: None,
        }
    }
}

impl BrowserArgs {
    /// Browser mode is on when `--browser` or any browser option is given.
    pub fn enabled(&self) -> (r: bool)
        ensures
            r == (self.browser || self.browser_tab_id is Some || self.browser_id is Some
                || self.bro_mcp_url is Some || self.bro_settings is Some),
    {
        self.browser || self.browser_tab_id.is_some() || self.browser_id.is_some()
            || self.bro_mcp_url.is_some() || self.bro_settings.is_some()
    }
}

} // verus!
