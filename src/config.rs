//! Display settings, as already-resolved values, with their defaults.
use vstd::prelude::*;

verus! {

/// The banner above the list.
pub struct LogoConfig {
    pub enabled: bool,
    pub lines: Vec<String>,
}

/// Which panels show, and their heights.
pub struct LayoutConfig {
    pub show_logo: bool,
    pub show_search: bool,
    pub show_monitor: bool,
    pub show_help: bool,
    pub show_status: bool,
    pub logo_height: u16,
    pub search_height: u16,
    pub monitor_height: u16,
    pub help_height: u16,
    pub status_height: u16,
}

/// Color names of the interface's regions.
pub struct ThemeConfig {
    pub logo: String,
    pub header: String,
    pub highlight: String,
    pub border: String,
    pub help: String,
    pub status: String,
    pub text: String,
}

/// All display settings of the interactive list.
pub struct UiConfig {
    pub logo: LogoConfig,
    pub layout: LayoutConfig,
    pub theme: ThemeConfig,
}

/// Color names of the plain listing's columns, and whether to color at all.
pub struct CliThemeConfig {
    pub enabled: bool,
    pub header: String,
    pub name: String,
    pub target: String,
    pub port: String,
    pub identity: String,
    pub tags: String,
}

impl Default for LogoConfig {
    fn default() -> (r: Self)
        ensures
            r.enabled,
            r.lines@.len() == 5,
            r.lines@[0]@ == "  ____  ____  _   _ "@,
            r.lines@[1]@ == " / ___||  _ \\| | | |"@,
            r.lines@[2]@ == "| |    | |_) | |_| |"@,
            r.lines@[3]@ == "| |___ |  __/|  _  |"@,
            r.lines@[4]@ == " \\____||_|   |_| |_|"@,
    {
        let mut lines: Vec<String> = Vec::new();
        lines.push("  ____  ____  _   _ ".to_owned());
        lines.push(" / ___||  _ \\| | | |".to_owned());
        lines.push("| |    | |_) | |_| |".to_owned());
        lines.push("| |___ |  __/|  _  |".to_owned());
        lines.push(" \\____||_|   |_| |_|".to_owned());
        LogoConfig { enabled: true, lines }
    }
}

impl Default for LayoutConfig {
    fn default() -> (r: Self)
        ensures
            r.show_logo && r.show_search && !r.show_monitor && r.show_help && r.show_status,
            r.logo_height == 5 && r.search_height == 3 && r.monitor_height == 5,
            r.help_height == 2 && r.status_height == 1,
    {
        LayoutConfig {
            show_logo: true,
            show_search: true,
            show_monitor: false,
            show_help: true,
            show_status: true,
            logo_height: 5,
            search_height: 3,
            monitor_height: 5,
            help_height: 2,
            status_height: 1,
        }
    }
}

impl Default for ThemeConfig {
    fn default() -> (r: Self)
        ensures
            r.logo@ == "Cyan"@,
            r.header@ == "Yellow"@,
            r.highlight@ == "Blue"@,
            r.border@ == "DarkGray"@,
            r.help@ == "Green"@,
            r.status@ == "Magenta"@,
            r.text@ == "White"@,
    {
        ThemeConfig {
            logo: "Cyan".to_owned(),
            header: "Yellow".to_owned(),
            highlight: "Blue".to_owned(),
            border: "DarkGray".to_owned(),
            help: "Green".to_owned(),
            status: "Magenta".to_owned(),
            text: "White".to_owned(),
        }
    }
}

impl Default for UiConfig {
    fn default() -> (r: Self)
        ensures
            r.logo.enabled && r.logo.lines@.len() == 5,
            r.layout.show_logo && r.layout.show_search && !r.layout.show_monitor,
            r.layout.show_help && r.layout.show_status,
            r.layout.logo_height == 5 && r.layout.search_height == 3,
            r.layout.monitor_height == 5 && r.layout.help_height == 2 && r.layout.status_height == 1,
            r.theme.logo@ == "Cyan"@ && r.theme.header@ == "Yellow"@ && r.theme.highlight@ == "Blue"@,
            r.theme.border@ == "DarkGray"@ && r.theme.help@ == "Green"@,
            r.theme.status@ == "Magenta"@ && r.theme.text@ == "White"@,
    {
        UiConfig {
            logo: LogoConfig::default(),
            layout: LayoutConfig::default(),
            theme: ThemeConfig::default(),
        }
    }
}

impl Default for CliThemeConfig {
    fn default() -> (r: Self)
        ensures
            r.enabled,
            r.header@ == "Yellow"@,
            r.name@ == "Cyan"@,
            r.target@ == "Green"@,
            r.port@ == "Magenta"@,
            r.identity@ == "Blue"@,
            r.tags@ == "DarkGray"@,
    {
        CliThemeConfig {
            enabled: true,
            header: "Yellow".to_owned(),
            name: "Cyan".to_owned(),
            target: "Green".to_owned(),
            port: "Magenta".to_owned(),
            identity: "Blue".to_owned(),
            tags: "DarkGray".to_owned(),
        }
    }
}

} // verus!
