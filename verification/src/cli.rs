//! The commands of the program and where each of them leads.

use vstd::prelude::*;

verus! {

/// What is done with the server.
#[derive(Debug, Clone, Copy, PartialEq, Eq, Structural)]
pub enum ServerAction {
    Start,
    Stop,
    Status,
}

/// What is done with the configuration.
#[derive(Debug, Clone, Copy, PartialEq, Eq, Structural)]
pub enum ConfigAction {
    /// The settings are asked one by one.
    Setup,
    Show,
    Validate,
}

/// What is done with the configuration of the clients.
#[derive(Debug, Clone, Copy, PartialEq, Eq, Structural)]
pub enum McpAction {
    /// The configuration files of the clients are written.
    Generate,
    Validate,
    /// The interactive chat is started.
    Chat,
}

/// The commands of the program.
#[derive(Debug, Clone)]
pub enum Commands {
    Server { action: ServerAction },
    /// The server alone, without any output of its own.
    McpServer,
    Config { action: ConfigAction },
    Mcp { action: McpAction },
    Init { name: Option<String>, yes: bool },
    Version,
    Doctor,
}

/// The command line, parsed.
#[derive(Debug, Clone)]
pub struct Cli {
    pub command: Option<Commands>,
    pub verbose: bool,
    pub config: Option<String>,
}

/// What runs for a command line.
#[derive(Debug, Clone)]
pub enum CliRoute {
    Server(ServerAction),
    McpServer,
    Config(ConfigAction),
    Mcp(McpAction),
    /// The project wizard, or the quick setup where `use_defaults` is set.
    Init { name: Option<String>, use_defaults: bool },
    Version,
    Doctor,
    /// No command was given: the short help is shown.
    DefaultHelp,
}

/// The view of a [`CliRoute`].
pub enum CliRouteView {
    Server(ServerAction),
    McpServer,
    Config(ConfigAction),
    Mcp(McpAction),
    Init { name: Option<Seq<char>>, use_defaults: bool },
    Version,
    Doctor,
    DefaultHelp,
}

impl View for CliRoute {
    type V = CliRouteView;

    open spec fn view(&self) -> CliRouteView {
        match self {
            CliRoute::Server(a) => CliRouteView::Server(*a),
            CliRoute::McpServer => CliRouteView::McpServer,
            CliRoute::Config(a) => CliRouteView::Config(*a),
            CliRoute::Mcp(a) => CliRouteView::Mcp(*a),
            CliRoute::Init { name, use_defaults } => CliRouteView::Init {
                name: match name {
                    Some(n) => Some(n@),
                    None => None,
                },
                use_defaults: *use_defaults,
            },
            CliRoute::Version => CliRouteView::Version,
            CliRoute::Doctor => CliRouteView::Doctor,
            CliRoute::DefaultHelp => CliRouteView::DefaultHelp,
        }
    }
}

/// Where a command leads.
pub open spec fn route_of(command: Option<Commands>) -> CliRouteView {
    match command {
        Some(Commands::Server { action }) => CliRouteView::Server(action),
        Some(Commands::McpServer) => CliRouteView::McpServer,
        Some(Commands::Config { action }) => CliRouteView::Config(action),
        Some(Commands::Mcp { action }) => CliRouteView::Mcp(action),
        Some(Commands::Init { name, yes }) => CliRouteView::Init {
            name: match name {
                Some(n) => Some(n@),
                None => None,
            },
            use_defaults: yes,
        },
        Some(Commands::Version) => CliRouteView::Version,
        Some(Commands::Doctor) => CliRouteView::Doctor,
        None => CliRouteView::DefaultHelp,
    }
}

impl Cli {
    /// What runs for the command line.
    pub fn execute(&self) -> (r: CliRoute)
        ensures
            r@ == route_of(self.command),
    {
        match &self.command {
            Some(Commands::Server { action }) => CliRoute::Server(*action),
            Some(Commands::McpServer) => CliRoute::McpServer,
            Some(Commands::Config { action }) => CliRoute::Config(*action),
            Some(Commands::Mcp { action }) => CliRoute::Mcp(*action),
            Some(Commands::Init { name, yes }) => CliRoute::Init {
                name: match name {
                    Some(n) => Some(n.clone()),
                    None => None,
                },
                use_defaults: *yes,
            },
            Some(Commands::Version) => CliRoute::Version,
            Some(Commands::Doctor) => CliRoute::Doctor,
            None => CliRoute::DefaultHelp,
        }
    }
}

} // verus!
