use vstd::prelude::*;

verus! {

/// What the command line asked for.
#[derive(Debug)]
pub struct CmdArgs {
    pub verbose: bool,
    pub no_color: bool,
    pub cmd: CmdSubcommand,
}

/// What listing, exporting and verifying the ledger need.
#[derive(Debug, Clone)]
pub struct ListArgs {
    pub gnosisscan_api_key: String,
    pub wallet_address: String,
    pub session_token: String,
}

/// What watching the chain needs.
#[derive(Debug, Clone)]
pub struct OnchainArgs {
    pub wallet_address: String,
    pub rpc_url: String,
    pub pushover_user: String,
    pub pushover_token: String,
}

/// What an export needs: the ledger's sources and the file to write.
#[derive(Debug, Clone)]
pub struct ExportArgs {
    pub list: ListArgs,
    pub filename: String,
}

#[derive(Debug)]
pub enum CmdSubcommand {
    List(ListArgs),
    Export(ExportArgs),
    Verify(ListArgs),
    Monitor(OnchainArgs),
}

} // verus!
