//! The built-in catalog of categories and entries.
use vstd::prelude::*;

use crate::catalog::{is_tree, shaped_from, trees_from, TopLevelCategory};
use crate::tweaks::Tweak;

verus! {

/// The catalog offered when the program starts.
pub fn default_categories() -> (r: Vec<TopLevelCategory>)
    ensures
        r@.len() == 13,
        trees_from(r@, 0),
{
    let dock_tweaks = vec![
        Tweak::new("Dock Size", "Change the size of Dock icons", "", "", false),
        Tweak::new("  Small (32px)", "Set Dock icon size to small", "defaults write com.apple.dock tilesize -int 32 && killall Dock", "", false),
        Tweak::new("  Medium (48px)", "Set Dock icon size to medium", "defaults write com.apple.dock tilesize -int 48 && killall Dock", "", false),
        Tweak::new("  Large (64px)", "Set Dock icon size to large", "defaults write com.apple.dock tilesize -int 64 && killall Dock", "", false),
        Tweak::new("Dock Behavior", "Configure Dock behavior settings", "", "", false),
        Tweak::new("  Disable Magnification", "Disable dock magnification effect", "defaults write com.apple.dock magnification -bool false && killall Dock", "", false),
        Tweak::new("  Auto-hide Dock", "Auto-hide the dock", "defaults write com.apple.dock autohide -bool true && killall Dock", "", false),
        Tweak::new("  Show Hidden Apps", "Show hidden applications in Dock", "defaults write com.apple.dock showhidden -bool true && killall Dock", "", false),
        Tweak::new("  Disable App Bouncing", "Disable app icon bouncing", "defaults write com.apple.dock no-bouncing -bool true && killall Dock", "", false),
        Tweak::new("Dock Spacers", "Manage Dock spacers and organization", "", "", false),
        Tweak::new("  Add Small Spacer", "Add a small spacer tile to the Dock", r#"defaults write com.apple.dock persistent-apps -array-add '{"tile-type"="small-spacer-tile";}' && killall Dock"#, "", false),
        Tweak::new("  Add Large Spacer", "Add a large spacer tile to the Dock", r#"defaults write com.apple.dock persistent-apps -array-add '{"tile-type"="spacer-tile";}' && killall Dock"#, "", false),
        Tweak::new("  Remove All Spacers", "Remove all spacers from the Dock", "defaults write com.apple.dock persistent-apps -array '()' && killall Dock", "", false),
        Tweak::new("Dock Position", "Change Dock position", "", "", false),
        Tweak::new("  Position Left", "Move Dock to left side", "defaults write com.apple.dock orientation -string left && killall Dock", "", false),
        Tweak::new("  Position Bottom", "Move Dock to bottom (default)", "defaults write com.apple.dock orientation -string bottom && killall Dock", "", false),
        Tweak::new("  Position Right", "Move Dock to right side", "defaults write com.apple.dock orientation -string right && killall Dock", "", false),
        Tweak::new("Reset Options", "Reset Dock to default settings", "", "", false),
        Tweak::new("  Reset Dock to Default", "Reset Dock to its default settings", "defaults delete com.apple.dock && killall Dock", "", false),
    ];
    proof {
        reveal_strlit("Dock Size");
        reveal_strlit("");
        reveal_strlit("  Small (32px)");
        reveal_strlit("defaults write com.apple.dock tilesize -int 32 && killall Dock");
        reveal_strlit("  Medium (48px)");
        reveal_strlit("defaults write com.apple.dock tilesize -int 48 && killall Dock");
        reveal_strlit("  Large (64px)");
        reveal_strlit("defaults write com.apple.dock tilesize -int 64 && killall Dock");
        reveal_strlit("Dock Behavior");
        reveal_strlit("  Disable Magnification");
        reveal_strlit("defaults write com.apple.dock magnification -bool false && killall Dock");
        reveal_strlit("  Auto-hide Dock");
        reveal_strlit("defaults write com.apple.dock autohide -bool true && killall Dock");
        reveal_strlit("  Show Hidden Apps");
        reveal_strlit("defaults write com.apple.dock showhidden -bool true && killall Dock");
        reveal_strlit("  Disable App Bouncing");
        reveal_strlit("defaults write com.apple.dock no-bouncing -bool true && killall Dock");
        reveal_strlit("Dock Spacers");
        reveal_strlit("  Add Small Spacer");
        reveal_strlit(r#"defaults write com.apple.dock persistent-apps -array-add '{"tile-type"="small-spacer-tile";}' && killall Dock"#);
        reveal_strlit("  Add Large Spacer");
        reveal_strlit(r#"defaults write com.apple.dock persistent-apps -array-add '{"tile-type"="spacer-tile";}' && killall Dock"#);
        reveal_strlit("  Remove All Spacers");
        reveal_strlit("defaults write com.apple.dock persistent-apps -array '()' && killall Dock");
        reveal_strlit("Dock Position");
        reveal_strlit("  Position Left");
        reveal_strlit("defaults write com.apple.dock orientation -string left && killall Dock");
        reveal_strlit("  Position Bottom");
        reveal_strlit("defaults write com.apple.dock orientation -string bottom && killall Dock");
        reveal_strlit("  Position Right");
        reveal_strlit("defaults write com.apple.dock orientation -string right && killall Dock");
        reveal_strlit("Reset Options");
        reveal_strlit("  Reset Dock to Default");
        reveal_strlit("defaults delete com.apple.dock && killall Dock");
        reveal_with_fuel(shaped_from, 20);
        assert(is_tree(dock_tweaks@));
    }

    let finder_tweaks = vec![
        Tweak::new("Finder Appearance", "Customize Finder appearance", "", "", false),
        Tweak::new("  Show Hidden Files", "Show hidden files in Finder", "defaults write com.apple.finder AppleShowAllFiles -bool true && killall Finder", "", false),
        Tweak::new("  Hide Hidden Files", "Hide hidden files in Finder", "defaults write com.apple.finder AppleShowAllFiles -bool false && killall Finder", "", false),
        Tweak::new("  Show Path Bar", "Show path bar at bottom of Finder windows", "defaults write com.apple.finder ShowPathbar -bool true && killall Finder", "", false),
        Tweak::new("  Show Status Bar", "Show status bar at bottom of Finder windows", "defaults write com.apple.finder ShowStatusBar -bool true && killall Finder", "", false),
        Tweak::new("  Show Sidebar", "Show sidebar in Finder windows", "defaults write com.apple.finder ShowSidebar -bool true && killall Finder", "", false),
        Tweak::new("  Show Tab Bar", "Show tab bar in Finder windows", "defaults write com.apple.finder ShowTabView -bool true && killall Finder", "", false),
        Tweak::new("Finder Behavior", "Configure Finder behavior", "", "", false),
        Tweak::new("  Show All File Extensions", "Show file extensions for all files", "defaults write NSGlobalDomain AppleShowAllExtensions -bool true && killall Finder", "", false),
        Tweak::new("  Disable .DS_Store Creation", "Prevent creation of .DS_Store files", "defaults write com.apple.desktopservices DSDontWriteNetworkStores -bool true", "", false),
        Tweak::new("  Show Library Folder", "Show Library folder in user's home directory", "chflags nohidden ~/Library", "", false),
        Tweak::new("  Hide Library Folder", "Hide Library folder in user's home directory", "chflags hidden ~/Library", "", false),
        Tweak::new("  Enable Quit Option", "Enable Quit option in Finder menu", "defaults write com.apple.finder QuitMenuItem -bool true && killall Finder", "", false),
    ];
    proof {
        reveal_strlit("Finder Appearance");
        reveal_strlit("");
        reveal_strlit("  Show Hidden Files");
        reveal_strlit("defaults write com.apple.finder AppleShowAllFiles -bool true && killall Finder");
        reveal_strlit("  Hide Hidden Files");
        reveal_strlit("defaults write com.apple.finder AppleShowAllFiles -bool false && killall Finder");
        reveal_strlit("  Show Path Bar");
        reveal_strlit("defaults write com.apple.finder ShowPathbar -bool true && killall Finder");
        reveal_strlit("  Show Status Bar");
        reveal_strlit("defaults write com.apple.finder ShowStatusBar -bool true && killall Finder");
        reveal_strlit("  Show Sidebar");
        reveal_strlit("defaults write com.apple.finder ShowSidebar -bool true && killall Finder");
        reveal_strlit("  Show Tab Bar");
        reveal_strlit("defaults write com.apple.finder ShowTabView -bool true && killall Finder");
        reveal_strlit("Finder Behavior");
        reveal_strlit("  Show All File Extensions");
        reveal_strlit("defaults write NSGlobalDomain AppleShowAllExtensions -bool true && killall Finder");
        reveal_strlit("  Disable .DS_Store Creation");
        reveal_strlit("defaults write com.apple.desktopservices DSDontWriteNetworkStores -bool true");
        reveal_strlit("  Show Library Folder");
        reveal_strlit("chflags nohidden ~/Library");
        reveal_strlit("  Hide Library Folder");
        reveal_strlit("chflags hidden ~/Library");
        reveal_strlit("  Enable Quit Option");
        reveal_strlit("defaults write com.apple.finder QuitMenuItem -bool true && killall Finder");
        reveal_with_fuel(shaped_from, 14);
        assert(is_tree(finder_tweaks@));
    }

    let system_ui_tweaks = vec![
        Tweak::new("Menu Bar", "Customize menu bar appearance", "", "", false),
        Tweak::new("  Show Battery Percentage", "Show battery percentage in menu bar", "defaults write com.apple.menuextra.battery ShowPercent -string YES", "", false),
        Tweak::new("  Hide Battery Percentage", "Hide battery percentage in menu bar", "defaults write com.apple.menuextra.battery ShowPercent -string NO", "", false),
        Tweak::new("  Show Date in Menu Bar", "Show date in menu bar", "defaults write com.apple.menuextra.clock DateFormat -string 'EEE MMM d  h:mm a'", "", false),
        Tweak::new("  Show Seconds in Clock", "Show seconds in menu bar clock", "defaults write com.apple.menuextra.clock ShowSeconds -bool true", "", false),
        Tweak::new("  Hide Seconds in Clock", "Hide seconds in menu bar clock", "defaults write com.apple.menuextra.clock ShowSeconds -bool false", "", false),
        Tweak::new("Desktop & Screensaver", "Customize desktop and screensaver", "", "", false),
        Tweak::new("  Disable Screensaver", "Disable screensaver", "defaults -currentHost write com.apple.screensaver idleTime -int 0", "", false),
        Tweak::new("  Set Screensaver to 5 minutes", "Set screensaver to activate after 5 minutes", "defaults -currentHost write com.apple.screensaver idleTime -int 300", "", false),
        Tweak::new("  Set Screensaver to 10 minutes", "Set screensaver to activate after 10 minutes", "defaults -currentHost write com.apple.screensaver idleTime -int 600", "", false),
        Tweak::new("  Disable Hot Corners", "Disable hot corners", "defaults write com.apple.dock wvous-tl -int 0 && defaults write com.apple.dock wvous-tr -int 0 && defaults write com.apple.dock wvous-bl -int 0 && defaults write com.apple.dock wvous-br -int 0 && killall Dock", "", false),
        Tweak::new("Keyboard", "Customize keyboard settings", "", "", false),
        Tweak::new("  Disable Caps Lock Delay", "Remove the delay when enabling Caps Lock", "hidutil property --set '{\"CapsLockDelayOverride\":0}'", "", false),
        Tweak::new("  Set Custom Menu Bar Text", "Replace clock with custom text. You will be prompted for text.", "__PROMPT_FOR_TEXT__:defaults write com.apple.menuextra.clock DateFormat -string \"'{}'\"", "", false),
        Tweak::new("  Reset Menu Bar Clock", "Restore the default clock display", "defaults delete com.apple.menuextra.clock DateFormat", "", false),
    ];
    proof {
        reveal_strlit("Menu Bar");
        reveal_strlit("");
        reveal_strlit("  Show Battery Percentage");
        reveal_strlit("defaults write com.apple.menuextra.battery ShowPercent -string YES");
        reveal_strlit("  Hide Battery Percentage");
        reveal_strlit("defaults write com.apple.menuextra.battery ShowPercent -string NO");
        reveal_strlit("  Show Date in Menu Bar");
        reveal_strlit("defaults write com.apple.menuextra.clock DateFormat -string 'EEE MMM d  h:mm a'");
        reveal_strlit("  Show Seconds in Clock");
        reveal_strlit("defaults write com.apple.menuextra.clock ShowSeconds -bool true");
        reveal_strlit("  Hide Seconds in Clock");
        reveal_strlit("defaults write com.apple.menuextra.clock ShowSeconds -bool false");
        reveal_strlit("Desktop & Screensaver");
        reveal_strlit("  Disable Screensaver");
        reveal_strlit("defaults -currentHost write com.apple.screensaver idleTime -int 0");
        reveal_strlit("  Set Screensaver to 5 minutes");
        reveal_strlit("defaults -currentHost write com.apple.screensaver idleTime -int 300");
        reveal_strlit("  Set Screensaver to 10 minutes");
        reveal_strlit("defaults -currentHost write com.apple.screensaver idleTime -int 600");
        reveal_strlit("  Disable Hot Corners");
        reveal_strlit("defaults write com.apple.dock wvous-tl -int 0 && defaults write com.apple.dock wvous-tr -int 0 && defaults write com.apple.dock wvous-bl -int 0 && defaults write com.apple.dock wvous-br -int 0 && killall Dock");
        reveal_strlit("Keyboard");
        reveal_strlit("  Disable Caps Lock Delay");
        reveal_strlit("hidutil property --set '{\"CapsLockDelayOverride\":0}'");
        reveal_strlit("  Set Custom Menu Bar Text");
        reveal_strlit("__PROMPT_FOR_TEXT__:defaults write com.apple.menuextra.clock DateFormat -string \"'{}'\"");
        reveal_strlit("  Reset Menu Bar Clock");
        reveal_strlit("defaults delete com.apple.menuextra.clock DateFormat");
        reveal_with_fuel(shaped_from, 16);
        assert(is_tree(system_ui_tweaks@));
    }

    let security_tweaks = vec![
        Tweak::new("Gatekeeper", "Configure Gatekeeper security settings", "", "", false),
        Tweak::new("  Disable Gatekeeper", "Disable Gatekeeper (allow apps from anywhere)", "sudo spctl --master-disable", "", false),
        Tweak::new("  Enable Gatekeeper", "Enable Gatekeeper (default security)", "sudo spctl --master-enable", "", false),
        Tweak::new("  Check Gatekeeper Status", "Check current Gatekeeper status", "spctl --status", "", false),
        Tweak::new("Firewall", "Configure firewall settings", "", "", false),
        Tweak::new("  Enable Firewall", "Enable macOS firewall", "sudo /usr/libexec/ApplicationFirewall/socketfilterfw --setglobalstate on", "", false),
        Tweak::new("  Disable Firewall", "Disable macOS firewall", "sudo /usr/libexec/ApplicationFirewall/socketfilterfw --setglobalstate off", "", false),
        Tweak::new("  Check Firewall Status", "Check firewall status", "sudo /usr/libexec/ApplicationFirewall/socketfilterfw --getglobalstate", "", false),
        Tweak::new("Privacy Settings", "Configure privacy settings", "", "", false),
        Tweak::new("  Disable Location Services", "Disable location services", "sudo defaults write /var/db/locationd/Library/Preferences/ByHost/com.apple.locationd LocationServicesEnabled -int 0", "", false),
        Tweak::new("  Enable Location Services", "Enable location services", "sudo defaults write /var/db/locationd/Library/Preferences/ByHost/com.apple.locationd LocationServicesEnabled -int 1", "", false),
        Tweak::new("  Disable Analytics", "Disable analytics and diagnostics", "defaults write com.apple.AnalyticsClient AnalyticsEnabled -bool false", "", false),
        Tweak::new("  Enable Analytics", "Enable analytics and diagnostics", "defaults write com.apple.AnalyticsClient AnalyticsEnabled -bool true", "", false),
    ];
    proof {
        reveal_strlit("Gatekeeper");
        reveal_strlit("");
        reveal_strlit("  Disable Gatekeeper");
        reveal_strlit("sudo spctl --master-disable");
        reveal_strlit("  Enable Gatekeeper");
        reveal_strlit("sudo spctl --master-enable");
        reveal_strlit("  Check Gatekeeper Status");
        reveal_strlit("spctl --status");
        reveal_strlit("Firewall");
        reveal_strlit("  Enable Firewall");
        reveal_strlit("sudo /usr/libexec/ApplicationFirewall/socketfilterfw --setglobalstate on");
        reveal_strlit("  Disable Firewall");
        reveal_strlit("sudo /usr/libexec/ApplicationFirewall/socketfilterfw --setglobalstate off");
        reveal_strlit("  Check Firewall Status");
        reveal_strlit("sudo /usr/libexec/ApplicationFirewall/socketfilterfw --getglobalstate");
        reveal_strlit("Privacy Settings");
        reveal_strlit("  Disable Location Services");
        reveal_strlit("sudo defaults write /var/db/locationd/Library/Preferences/ByHost/com.apple.locationd LocationServicesEnabled -int 0");
        reveal_strlit("  Enable Location Services");
        reveal_strlit("sudo defaults write /var/db/locationd/Library/Preferences/ByHost/com.apple.locationd LocationServicesEnabled -int 1");
        reveal_strlit("  Disable Analytics");
        reveal_strlit("defaults write com.apple.AnalyticsClient AnalyticsEnabled -bool false");
        reveal_strlit("  Enable Analytics");
        reveal_strlit("defaults write com.apple.AnalyticsClient AnalyticsEnabled -bool true");
        reveal_with_fuel(shaped_from, 14);
        assert(is_tree(security_tweaks@));
    }

    let developer_tweaks = vec![
        Tweak::new("Developer Tools", "Install and configure developer tools", "", "", false),
        Tweak::new("  Install Xcode Command Line Tools", "Install Xcode command line tools", "xcode-select --install", "", false),
        Tweak::new("  Check Xcode Tools Status", "Check if Xcode command line tools are installed", "xcode-select -p", "", false),
        Tweak::new("  Accept Xcode License", "Accept Xcode license agreement", "sudo xcodebuild -license accept", "", false),
        Tweak::new("  Reset Xcode Path", "Reset Xcode developer directory path", "sudo xcode-select --reset", "", false),
        Tweak::new("Terminal Customization", "Customize terminal appearance", "", "", false),
        Tweak::new("  Enable Terminal Colors", "Enable colors in terminal", "defaults write com.apple.Terminal 'Default Window Settings' -string 'Pro' && defaults write com.apple.Terminal 'Startup Window Settings' -string 'Pro'", "", false),
        Tweak::new("  Set Terminal Font Size to 12", "Set terminal font size to 12", "defaults write com.apple.Terminal Pro -dict 'Font' -string 'SF Mono 12'", "", false),
        Tweak::new("  Set Terminal Font Size to 14", "Set terminal font size to 14", "defaults write com.apple.Terminal Pro -dict 'Font' -string 'SF Mono 14'", "", false),
        Tweak::new("  Set Terminal Font Size to 16", "Set terminal font size to 16", "defaults write com.apple.Terminal Pro -dict 'Font' -string 'SF Mono 16'", "", false),
        Tweak::new("  Enable Terminal Transparency", "Enable transparency in terminal", "defaults write com.apple.Terminal Pro -dict 'Transparency' -float 0.8", "", false),
        Tweak::new("Git Configuration", "Configure Git settings", "", "", false),
        Tweak::new("  Set Git Global User", "Set Git global user name and email", "git config --global user.name 'Your Name' && git config --global user.email 'your.email@example.com'", "", false),
        Tweak::new("  Configure Git Credentials", "Set up Git credential helper", "git config --global credential.helper osxkeychain", "", false),
        Tweak::new("  Set Git Default Branch", "Set default branch name to main", "git config --global init.defaultBranch main", "", false),
        Tweak::new("  Configure Git Aliases", "Set up useful Git aliases", "git config --global alias.st status && git config --global alias.co checkout && git config --global alias.br branch && git config --global alias.ci commit", "", false),
    ];
    proof {
        reveal_strlit("Developer Tools");
        reveal_strlit("");
        reveal_strlit("  Install Xcode Command Line Tools");
        reveal_strlit("xcode-select --install");
        reveal_strlit("  Check Xcode Tools Status");
        reveal_strlit("xcode-select -p");
        reveal_strlit("  Accept Xcode License");
        reveal_strlit("sudo xcodebuild -license accept");
        reveal_strlit("  Reset Xcode Path");
        reveal_strlit("sudo xcode-select --reset");
        reveal_strlit("Terminal Customization");
        reveal_strlit("  Enable Terminal Colors");
        reveal_strlit("defaults write com.apple.Terminal 'Default Window Settings' -string 'Pro' && defaults write com.apple.Terminal 'Startup Window Settings' -string 'Pro'");
        reveal_strlit("  Set Terminal Font Size to 12");
        reveal_strlit("defaults write com.apple.Terminal Pro -dict 'Font' -string 'SF Mono 12'");
        reveal_strlit("  Set Terminal Font Size to 14");
        reveal_strlit("defaults write com.apple.Terminal Pro -dict 'Font' -string 'SF Mono 14'");
        reveal_strlit("  Set Terminal Font Size to 16");
        reveal_strlit("defaults write com.apple.Terminal Pro -dict 'Font' -string 'SF Mono 16'");
        reveal_strlit("  Enable Terminal Transparency");
        reveal_strlit("defaults write com.apple.Terminal Pro -dict 'Transparency' -float 0.8");
        reveal_strlit("Git Configuration");
        reveal_strlit("  Set Git Global User");
        reveal_strlit("git config --global user.name 'Your Name' && git config --global user.email 'your.email@example.com'");
        reveal_strlit("  Configure Git Credentials");
        reveal_strlit("git config --global credential.helper osxkeychain");
        reveal_strlit("  Set Git Default Branch");
        reveal_strlit("git config --global init.defaultBranch main");
        reveal_strlit("  Configure Git Aliases");
        reveal_strlit("git config --global alias.st status && git config --global alias.co checkout && git config --global alias.br branch && git config --global alias.ci commit");
        reveal_with_fuel(shaped_from, 17);
        assert(is_tree(developer_tweaks@));
    }

    let performance_tweaks = vec![
        Tweak::new("Animation Settings", "Configure system animations", "", "", false),
        Tweak::new("  Disable Window Animations", "Disable window animations", "defaults write NSGlobalDomain NSAutomaticWindowAnimationsEnabled -bool false", "", false),
        Tweak::new("  Enable Window Animations", "Enable window animations", "defaults write NSGlobalDomain NSAutomaticWindowAnimationsEnabled -bool true", "", false),
        Tweak::new("  Disable Dock Animations", "Disable dock animations", "defaults write com.apple.dock expose-animation-duration -float 0 && killall Dock", "", false),
        Tweak::new("  Enable Dock Animations", "Enable dock animations", "defaults write com.apple.dock expose-animation-duration -float 0.1 && killall Dock", "", false),
        Tweak::new("  Disable Menu Bar Animations", "Disable menu bar animations", "defaults write NSGlobalDomain NSWindowResizeTime -float 0.001", "", false),
        Tweak::new("  Enable Menu Bar Animations", "Enable menu bar animations", "defaults write NSGlobalDomain NSWindowResizeTime -float 0.2", "", false),
    ];
    proof {
        reveal_strlit("Animation Settings");
        reveal_strlit("");
        reveal_strlit("  Disable Window Animations");
        reveal_strlit("defaults write NSGlobalDomain NSAutomaticWindowAnimationsEnabled -bool false");
        reveal_strlit("  Enable Window Animations");
        reveal_strlit("defaults write NSGlobalDomain NSAutomaticWindowAnimationsEnabled -bool true");
        reveal_strlit("  Disable Dock Animations");
        reveal_strlit("defaults write com.apple.dock expose-animation-duration -float 0 && killall Dock");
        reveal_strlit("  Enable Dock Animations");
        reveal_strlit("defaults write com.apple.dock expose-animation-duration -float 0.1 && killall Dock");
        reveal_strlit("  Disable Menu Bar Animations");
        reveal_strlit("defaults write NSGlobalDomain NSWindowResizeTime -float 0.001");
        reveal_strlit("  Enable Menu Bar Animations");
        reveal_strlit("defaults write NSGlobalDomain NSWindowResizeTime -float 0.2");
        reveal_with_fuel(shaped_from, 8);
        assert(is_tree(performance_tweaks@));
    }

    let animated_wallpapers_tweaks = vec![
        Tweak::new("Video Wallpaper (mpv)", "Set a video as your wallpaper (requires mpv)", "", "", false),
        Tweak::new("  Play video as wallpaper (experimental)", "Play ~/Movies/wallpaper.mp4 as wallpaper (requires mpv)", "mpv --wid=$(osascript -e 'tell application \"Finder\" to get id of window 1') --loop --no-border --geometry=100%:100% --panscan=1.0 --no-osc --no-input-default-bindings --no-audio ~/Movies/wallpaper.mp4", "", false),
    ];
    proof {
        reveal_strlit("Video Wallpaper (mpv)");
        reveal_strlit("");
        reveal_strlit("  Play video as wallpaper (experimental)");
        reveal_strlit("mpv --wid=$(osascript -e 'tell application \"Finder\" to get id of window 1') --loop --no-border --geometry=100%:100% --panscan=1.0 --no-osc --no-input-default-bindings --no-audio ~/Movies/wallpaper.mp4");
        reveal_with_fuel(shaped_from, 3);
        assert(is_tree(animated_wallpapers_tweaks@));
    }

    let power_management_tweaks = vec![
        Tweak::new("Computer Sleep", "Adjust computer sleep settings", "", "", false),
        Tweak::new("  Never", "Prevent computer from sleeping", "sudo systemsetup -setcomputersleep Never", "", false),
        Tweak::new("  15 minutes (Default)", "Set computer sleep timer to 15 minutes", "sudo systemsetup -setcomputersleep 15", "", false),
        Tweak::new("  30 minutes", "Set computer sleep timer to 30 minutes", "sudo systemsetup -setcomputersleep 30", "", false),
        Tweak::new("  1 hour", "Set computer sleep timer to 60 minutes", "sudo systemsetup -setcomputersleep 60", "", false),
        Tweak::new("Display Sleep", "Adjust display sleep settings", "", "", false),
        Tweak::new("  5 minutes", "Set display sleep timer to 5 minutes", "sudo systemsetup -setdisplaysleep 5", "", false),
        Tweak::new("  10 minutes (Default)", "Set display sleep timer to 10 minutes", "sudo systemsetup -setdisplaysleep 10", "", false),
        Tweak::new("  15 minutes", "Set display sleep timer to 15 minutes", "sudo systemsetup -setdisplaysleep 15", "", false),
        Tweak::new("  Never", "Prevent display from sleeping", "sudo systemsetup -setdisplaysleep Never", "", false),
        Tweak::new("Wake Settings", "Configure wake behavior", "", "", false),
        Tweak::new("  Enable Wake on Network", "Enable wake on network access", "sudo systemsetup -setwakeonnetworkaccess on", "", false),
        Tweak::new("  Disable Wake on Network", "Disable wake on network access", "sudo systemsetup -setwakeonnetworkaccess off", "", false),
        Tweak::new("  Enable Wake on Modem", "Enable wake on modem ring", "sudo systemsetup -setwakeonmodem on", "", false),
        Tweak::new("  Disable Wake on Modem", "Disable wake on modem ring", "sudo systemsetup -setwakeonmodem off", "", false),
    ];
    proof {
        reveal_strlit("Computer Sleep");
        reveal_strlit("");
        reveal_strlit("  Never");
        reveal_strlit("sudo systemsetup -setcomputersleep Never");
        reveal_strlit("  15 minutes (Default)");
        reveal_strlit("sudo systemsetup -setcomputersleep 15");
        reveal_strlit("  30 minutes");
        reveal_strlit("sudo systemsetup -setcomputersleep 30");
        reveal_strlit("  1 hour");
        reveal_strlit("sudo systemsetup -setcomputersleep 60");
        reveal_strlit("Display Sleep");
        reveal_strlit("  5 minutes");
        reveal_strlit("sudo systemsetup -setdisplaysleep 5");
        reveal_strlit("  10 minutes (Default)");
        reveal_strlit("sudo systemsetup -setdisplaysleep 10");
        reveal_strlit("  15 minutes");
        reveal_strlit("sudo systemsetup -setdisplaysleep 15");
        reveal_strlit("sudo systemsetup -setdisplaysleep Never");
        reveal_strlit("Wake Settings");
        reveal_strlit("  Enable Wake on Network");
        reveal_strlit("sudo systemsetup -setwakeonnetworkaccess on");
        reveal_strlit("  Disable Wake on Network");
        reveal_strlit("sudo systemsetup -setwakeonnetworkaccess off");
        reveal_strlit("  Enable Wake on Modem");
        reveal_strlit("sudo systemsetup -setwakeonmodem on");
        reveal_strlit("  Disable Wake on Modem");
        reveal_strlit("sudo systemsetup -setwakeonmodem off");
        reveal_with_fuel(shaped_from, 16);
        assert(is_tree(power_management_tweaks@));
    }

    let network_tweaks = vec![
        Tweak::new("DNS Management", "Manage DNS settings", "", "", false),
        Tweak::new("  Flush DNS Cache", "Removes all entries from the DNS cache", "sudo dscacheutil -flushcache; sudo killall -HUP mDNSResponder", "", false),
        Tweak::new("  Set DNS to Google", "Set DNS servers to Google (8.8.8.8, 8.8.4.4)", "networksetup -setdnsservers Wi-Fi 8.8.8.8 8.8.4.4", "", false),
        Tweak::new("  Set DNS to Cloudflare", "Set DNS servers to Cloudflare (1.1.1.1, 1.0.0.1)", "networksetup -setdnsservers Wi-Fi 1.1.1.1 1.0.0.1", "", false),
        Tweak::new("  Reset DNS to DHCP", "Reset DNS to use DHCP", "networksetup -setdnsservers Wi-Fi empty", "", false),
        Tweak::new("Network Interfaces", "Configure network interfaces", "", "", false),
        Tweak::new("  Enable Wi-Fi", "Enable Wi-Fi interface", "networksetup -setairportpower en0 on", "", false),
        Tweak::new("  Disable Wi-Fi", "Disable Wi-Fi interface", "networksetup -setairportpower en0 off", "", false),
        Tweak::new("  Enable Bluetooth", "Enable Bluetooth", "sudo pkill bluetoothd", "", false),
        Tweak::new("  Disable Bluetooth", "Disable Bluetooth", "sudo pkill bluetoothd", "", false),
        Tweak::new("  Show Network Info", "Show detailed network information", "networksetup -listallnetworkservices && echo '---' && ifconfig", "", false),
    ];
    proof {
        reveal_strlit("DNS Management");
        reveal_strlit("");
        reveal_strlit("  Flush DNS Cache");
        reveal_strlit("sudo dscacheutil -flushcache; sudo killall -HUP mDNSResponder");
        reveal_strlit("  Set DNS to Google");
        reveal_strlit("networksetup -setdnsservers Wi-Fi 8.8.8.8 8.8.4.4");
        reveal_strlit("  Set DNS to Cloudflare");
        reveal_strlit("networksetup -setdnsservers Wi-Fi 1.1.1.1 1.0.0.1");
        reveal_strlit("  Reset DNS to DHCP");
        reveal_strlit("networksetup -setdnsservers Wi-Fi empty");
        reveal_strlit("Network Interfaces");
        reveal_strlit("  Enable Wi-Fi");
        reveal_strlit("networksetup -setairportpower en0 on");
        reveal_strlit("  Disable Wi-Fi");
        reveal_strlit("networksetup -setairportpower en0 off");
        reveal_strlit("  Enable Bluetooth");
        reveal_strlit("sudo pkill bluetoothd");
        reveal_strlit("  Disable Bluetooth");
        reveal_strlit("  Show Network Info");
        reveal_strlit("networksetup -listallnetworkservices && echo '---' && ifconfig");
        reveal_with_fuel(shaped_from, 12);
        assert(is_tree(network_tweaks@));
    }

    let optimization_tweaks = vec![
        Tweak::new("Clean Up Caches", "Remove temporary cache files", "", "", false),
        Tweak::new("  Clear User Cache (destructive)", "Removes all files from ~/Library/Caches", "rm -rf ~/Library/Caches/*", "", false),
        Tweak::new("  Clear System Cache (destructive)", "Removes all files from /Library/Caches", "sudo rm -rf /Library/Caches/*", "", false),
        Tweak::new("  Clear Launch Services Cache", "Clear Launch Services cache", "sudo rm -rf /System/Library/Caches/com.apple.LaunchServices-*.csstore", "", false),
        Tweak::new("  Clear Xcode Derived Data", "Clear Xcode derived data (if Xcode is installed)", "rm -rf ~/Library/Developer/Xcode/DerivedData", "", false),

        Tweak::new("Organize Desktop", "Move files from Desktop to organized folders", "", "", false),
        Tweak::new("  Move screenshots to Pictures folder", "Finds all screenshots on Desktop and moves them to ~/Pictures/Screenshots", "mkdir -p ~/Pictures/Screenshots && find ~/Desktop -maxdepth 1 \\( -name 'Screen Shot*.png' -o -name 'Screenshot*.png' \\) -exec mv -n {} ~/Pictures/Screenshots/ \\;", "", false),
        Tweak::new("  Move project folders to ~/Developer", "Moves folders with .git, .gitignore, or source code", "zsh scripts/organize_projects.sh", "", false),
        Tweak::new("  Move images to ~/Pictures", "Moves common image files from Desktop to Pictures", "find ~/Desktop -maxdepth 1 -type f \\( -iname '*.png' -o -iname '*.jpg' -o -iname '*.jpeg' -o -iname '*.gif' \\) -exec mv -n {} ~/Pictures/ \\;", "", false),
        Tweak::new("  Move videos to ~/Movies", "Moves common video files from Desktop to Movies", "find ~/Desktop -maxdepth 1 -type f \\( -iname '*.mov' -o -iname '*.mp4' \\) -exec mv -n {} ~/Movies/ \\;", "", false),
        Tweak::new("  Move documents to ~/Documents", "Moves common document files from Desktop to Documents", "find ~/Desktop -maxdepth 1 -type f \\( -iname '*.pdf' -o -iname '*.docx' \\) -exec mv -n {} ~/Documents/ \\;", "", false),

        Tweak::new("Find Large Files", "Identify large files to free up space", "", "", false),
        Tweak::new("  List 10 largest files in Home", "Shows a list of the 10 biggest files in your home directory.", "echo 'Large files in home directory:' && ls -lah ~ | grep -v '^d' | sort -k5 -hr | head -n 10", "", false),
        Tweak::new("  Find files larger than 100MB", "Find all files larger than 100MB in home directory", "find ~ -type f -size +100M -exec ls -lh {} \\; 2>/dev/null", "", false),
        Tweak::new("  Find files larger than 1GB", "Find all files larger than 1GB in home directory", "find ~ -type f -size +1G -exec ls -lh {} \\; 2>/dev/null", "", false),

        Tweak::new("System Maintenance", "Perform system maintenance tasks", "", "", false),
        Tweak::new("  Repair Disk Permissions", "Repair disk permissions", "sudo diskutil resetUserPermissions / `id -u`", "", false),
        Tweak::new("  Clear System Logs", "Clear system logs (requires admin)", "sudo rm -rf /var/log/*.log", "", false),
        Tweak::new("  Clear User Logs", "Clear user logs", "rm -rf ~/Library/Logs/*", "", false),
        Tweak::new("  Rebuild Spotlight Index", "Rebuild Spotlight search index", "sudo mdutil -E /", "", false),
    ];
    proof {
        reveal_strlit("Clean Up Caches");
        reveal_strlit("");
        reveal_strlit("  Clear User Cache (destructive)");
        reveal_strlit("rm -rf ~/Library/Caches/*");
        reveal_strlit("  Clear System Cache (destructive)");
        reveal_strlit("sudo rm -rf /Library/Caches/*");
        reveal_strlit("  Clear Launch Services Cache");
        reveal_strlit("sudo rm -rf /System/Library/Caches/com.apple.LaunchServices-*.csstore");
        reveal_strlit("  Clear Xcode Derived Data");
        reveal_strlit("rm -rf ~/Library/Developer/Xcode/DerivedData");
        reveal_strlit("Organize Desktop");
        reveal_strlit("  Move screenshots to Pictures folder");
        reveal_strlit("mkdir -p ~/Pictures/Screenshots && find ~/Desktop -maxdepth 1 \\( -name 'Screen Shot*.png' -o -name 'Screenshot*.png' \\) -exec mv -n {} ~/Pictures/Screenshots/ \\;");
        reveal_strlit("  Move project folders to ~/Developer");
        reveal_strlit("zsh scripts/organize_projects.sh");
        reveal_strlit("  Move images to ~/Pictures");
        reveal_strlit("find ~/Desktop -maxdepth 1 -type f \\( -iname '*.png' -o -iname '*.jpg' -o -iname '*.jpeg' -o -iname '*.gif' \\) -exec mv -n {} ~/Pictures/ \\;");
        reveal_strlit("  Move videos to ~/Movies");
        reveal_strlit("find ~/Desktop -maxdepth 1 -type f \\( -iname '*.mov' -o -iname '*.mp4' \\) -exec mv -n {} ~/Movies/ \\;");
        reveal_strlit("  Move documents to ~/Documents");
        reveal_strlit("find ~/Desktop -maxdepth 1 -type f \\( -iname '*.pdf' -o -iname '*.docx' \\) -exec mv -n {} ~/Documents/ \\;");
        reveal_strlit("Find Large Files");
        reveal_strlit("  List 10 largest files in Home");
        reveal_strlit("echo 'Large files in home directory:' && ls -lah ~ | grep -v '^d' | sort -k5 -hr | head -n 10");
        reveal_strlit("  Find files larger than 100MB");
        reveal_strlit("find ~ -type f -size +100M -exec ls -lh {} \\; 2>/dev/null");
        reveal_strlit("  Find files larger than 1GB");
        reveal_strlit("find ~ -type f -size +1G -exec ls -lh {} \\; 2>/dev/null");
        reveal_strlit("System Maintenance");
        reveal_strlit("  Repair Disk Permissions");
        reveal_strlit("sudo diskutil resetUserPermissions / `id -u`");
        reveal_strlit("  Clear System Logs");
        reveal_strlit("sudo rm -rf /var/log/*.log");
        reveal_strlit("  Clear User Logs");
        reveal_strlit("rm -rf ~/Library/Logs/*");
        reveal_strlit("  Rebuild Spotlight Index");
        reveal_strlit("sudo mdutil -E /");
        reveal_with_fuel(shaped_from, 21);
        assert(is_tree(optimization_tweaks@));
    }

    let brew_tweaks = vec![
        Tweak::new("Brew Installation", "Manage Homebrew installation", "", "", false),
        Tweak::new("  Install Homebrew (interactive)", "Install Homebrew package manager", "curl -fsSL https://raw.githubusercontent.com/Homebrew/install/HEAD/install.sh | bash", "", false),
        Tweak::new("  Uninstall Homebrew (destructive)", "Remove Homebrew and all packages (destructive)", "curl -fsSL https://raw.githubusercontent.com/Homebrew/install/HEAD/uninstall.sh | bash", "", false),
        Tweak::new("  Check Homebrew Status", "Check if Homebrew is installed and working", "__CHECK_BREW__", "", false),

        Tweak::new("Brew Maintenance", "Maintain and update Homebrew", "", "", false),
        Tweak::new("  Update Homebrew", "Update Homebrew and all packages", "brew update && brew upgrade", "", false),
        Tweak::new("  Clean Up Homebrew", "Remove old versions and clean cache", "brew cleanup", "", false),
        Tweak::new("  List Installed Packages", "View all installed Homebrew packages", "__LIST_INSTALLED__", "", false),
        Tweak::new("  List Outdated Packages", "View packages that have updates available", "__LIST_OUTDATED__", "", false),
        Tweak::new("  Upgrade Specific Package", "Upgrade a specific package", "brew upgrade [package_name]", "", false),
        Tweak::new("  Install Common Dev Tools", "Install common development tools", "brew install git node python3 rust go", "", false),

        Tweak::new("Brew Analytics", "Manage Homebrew analytics", "", "", false),
        Tweak::new("  Disable Analytics", "Disable Homebrew analytics collection", "brew analytics off", "", false),
        Tweak::new("  Enable Analytics", "Enable Homebrew analytics collection", "brew analytics on", "", false),
        Tweak::new("  Show Analytics Status", "Check if analytics are enabled", "brew analytics state", "", false),
    ];
    proof {
        reveal_strlit("Brew Installation");
        reveal_strlit("");
        reveal_strlit("  Install Homebrew (interactive)");
        reveal_strlit("curl -fsSL https://raw.githubusercontent.com/Homebrew/install/HEAD/install.sh | bash");
        reveal_strlit("  Uninstall Homebrew (destructive)");
        reveal_strlit("curl -fsSL https://raw.githubusercontent.com/Homebrew/install/HEAD/uninstall.sh | bash");
        reveal_strlit("  Check Homebrew Status");
        reveal_strlit("__CHECK_BREW__");
        reveal_strlit("Brew Maintenance");
        reveal_strlit("  Update Homebrew");
        reveal_strlit("brew update && brew upgrade");
        reveal_strlit("  Clean Up Homebrew");
        reveal_strlit("brew cleanup");
        reveal_strlit("  List Installed Packages");
        reveal_strlit("__LIST_INSTALLED__");
        reveal_strlit("  List Outdated Packages");
        reveal_strlit("__LIST_OUTDATED__");
        reveal_strlit("  Upgrade Specific Package");
        reveal_strlit("brew upgrade [package_name]");
        reveal_strlit("  Install Common Dev Tools");
        reveal_strlit("brew install git node python3 rust go");
        reveal_strlit("Brew Analytics");
        reveal_strlit("  Disable Analytics");
        reveal_strlit("brew analytics off");
        reveal_strlit("  Enable Analytics");
        reveal_strlit("brew analytics on");
        reveal_strlit("  Show Analytics Status");
        reveal_strlit("brew analytics state");
        reveal_with_fuel(shaped_from, 16);
        assert(is_tree(brew_tweaks@));
    }

    let about_tweaks = vec![
        Tweak::new("Application Info", "Information about this application", "", "", false),
        Tweak::new("  Version", "Show application version", "__SHOW_VERSION__", "", false),
        Tweak::new("  About", "Show detailed information about the application", "echo 'macOS Tweaks - A terminal-based GUI for managing macOS system tweaks and optimizations.\\n\\nBuilt with Rust and Ratatui.\\n\\nFeatures:\\n- Tabbed interface with organized categories\\n- Interactive navigation\\n- Real-time status updates\\n- Customizable color schemes\\n- Safe system modifications\\n\\nAuthor: Doruk Sarp Aydın\\nLicense: MIT'", "", false),
        Tweak::new("  System Information", "Show system information", "sw_vers && echo '\\n---\\n' && system_profiler SPHardwareDataType | grep -E '(Model Name|Model Identifier|Processor|Memory|Serial Number)'", "", false),
        Tweak::new("  Dependencies", "Show application dependencies", "echo 'Dependencies:\\n- Rust (latest stable)\\n- ratatui (terminal UI framework)\\n- crossterm (terminal manipulation)\\n- serde (serialization)\\n- anyhow (error handling)'", "", false),
        Tweak::new("  Sokoban Game", "Start the Sokoban puzzle game", "__SOKOBAN_GAME__", "", false),
    ];
    proof {
        reveal_strlit("Application Info");
        reveal_strlit("");
        reveal_strlit("  Version");
        reveal_strlit("__SHOW_VERSION__");
        reveal_strlit("  About");
        reveal_strlit("echo 'macOS Tweaks - A terminal-based GUI for managing macOS system tweaks and optimizations.\\n\\nBuilt with Rust and Ratatui.\\n\\nFeatures:\\n- Tabbed interface with organized categories\\n- Interactive navigation\\n- Real-time status updates\\n- Customizable color schemes\\n- Safe system modifications\\n\\nAuthor: Doruk Sarp Aydın\\nLicense: MIT'");
        reveal_strlit("  System Information");
        reveal_strlit("sw_vers && echo '\\n---\\n' && system_profiler SPHardwareDataType | grep -E '(Model Name|Model Identifier|Processor|Memory|Serial Number)'");
        reveal_strlit("  Dependencies");
        reveal_strlit("echo 'Dependencies:\\n- Rust (latest stable)\\n- ratatui (terminal UI framework)\\n- crossterm (terminal manipulation)\\n- serde (serialization)\\n- anyhow (error handling)'");
        reveal_strlit("  Sokoban Game");
        reveal_strlit("__SOKOBAN_GAME__");
        reveal_with_fuel(shaped_from, 7);
        assert(is_tree(about_tweaks@));
    }

    let utilities_tweaks = vec![
        Tweak::new("System Information", "Get detailed system information", "", "", false),
        Tweak::new("  Show Disk Usage", "Show disk usage information", "df -h", "", false),
        Tweak::new("  Show Memory Usage", "Show memory usage information", "vm_stat", "", false),
        Tweak::new("  Show CPU Info", "Show CPU information", "sysctl -n machdep.cpu.brand_string", "", false),
        Tweak::new("  Show Network Interfaces", "Show network interface information", "ifconfig", "", false),
        Tweak::new("  Show Running Processes", "Show top running processes", "ps aux | head -20", "", false),
        Tweak::new("File & Directory", "Useful file and directory operations", "", "", false),
        Tweak::new("  Count Files in Directory", "Count files in current directory", "ls -1 | wc -l", "", false),
        Tweak::new("  Find Empty Files", "Find empty files in current directory", "find . -type f -empty", "", false),
        Tweak::new("  Find Large Files (>100MB)", "Find files larger than 100MB in current directory", "find . -type f -size +100M -exec ls -lh {} \\;", "", false),
        Tweak::new("Maintenance & Network", "System maintenance and network utilities", "", "", false),
        Tweak::new("  Flush DNS Cache", "Clear DNS cache", "sudo dscacheutil -flushcache; sudo killall -HUP mDNSResponder", "", false),
        Tweak::new("  Clear Launch Services Cache", "Clear Launch Services cache", "sudo rm -rf /System/Library/Caches/com.apple.LaunchServices-*.csstore", "", false),
        Tweak::new("  Rebuild Spotlight Index", "Rebuild Spotlight search index", "sudo mdutil -E /", "", false),
        Tweak::new("  Repair Disk Permissions", "Repair disk permissions", "sudo diskutil resetUserPermissions / `id -u`", "", false),
        Tweak::new("  Show System Logs", "Show recent system logs", "log show --last 1h | head -50", "", false),
        Tweak::new("  Test Internet Connection", "Test internet connectivity", "ping -c 3 8.8.8.8", "", false),
        Tweak::new("  Show Network Speed", "Show current network interface speeds", "top -l 1 | grep \"Networks:\"", "", false),
        Tweak::new("  Show Active Connections", "Show active network connections", "netstat -an | grep ESTABLISHED | head -10", "", false),
        Tweak::new("  Test DNS Resolution", "Test DNS resolution", "nslookup google.com", "", false),
    ];
    proof {
        reveal_strlit("System Information");
        reveal_strlit("");
        reveal_strlit("  Show Disk Usage");
        reveal_strlit("df -h");
        reveal_strlit("  Show Memory Usage");
        reveal_strlit("vm_stat");
        reveal_strlit("  Show CPU Info");
        reveal_strlit("sysctl -n machdep.cpu.brand_string");
        reveal_strlit("  Show Network Interfaces");
        reveal_strlit("ifconfig");
        reveal_strlit("  Show Running Processes");
        reveal_strlit("ps aux | head -20");
        reveal_strlit("File & Directory");
        reveal_strlit("  Count Files in Directory");
        reveal_strlit("ls -1 | wc -l");
        reveal_strlit("  Find Empty Files");
        reveal_strlit("find . -type f -empty");
        reveal_strlit("  Find Large Files (>100MB)");
        reveal_strlit("find . -type f -size +100M -exec ls -lh {} \\;");
        reveal_strlit("Maintenance & Network");
        reveal_strlit("  Flush DNS Cache");
        reveal_strlit("sudo dscacheutil -flushcache; sudo killall -HUP mDNSResponder");
        reveal_strlit("  Clear Launch Services Cache");
        reveal_strlit("sudo rm -rf /System/Library/Caches/com.apple.LaunchServices-*.csstore");
        reveal_strlit("  Rebuild Spotlight Index");
        reveal_strlit("sudo mdutil -E /");
        reveal_strlit("  Repair Disk Permissions");
        reveal_strlit("sudo diskutil resetUserPermissions / `id -u`");
        reveal_strlit("  Show System Logs");
        reveal_strlit("log show --last 1h | head -50");
        reveal_strlit("  Test Internet Connection");
        reveal_strlit("ping -c 3 8.8.8.8");
        reveal_strlit("  Show Network Speed");
        reveal_strlit("top -l 1 | grep \"Networks:\"");
        reveal_strlit("  Show Active Connections");
        reveal_strlit("netstat -an | grep ESTABLISHED | head -10");
        reveal_strlit("  Test DNS Resolution");
        reveal_strlit("nslookup google.com");
        reveal_with_fuel(shaped_from, 21);
        assert(is_tree(utilities_tweaks@));
    }

    let categories = vec![
        TopLevelCategory::new("Dock", "Customize macOS Dock settings", dock_tweaks),
        TopLevelCategory::new("Finder", "Customize Finder appearance and behavior", finder_tweaks),
        TopLevelCategory::new("System UI", "Customize system user interface", system_ui_tweaks),
        TopLevelCategory::new("Security", "Configure security and privacy settings", security_tweaks),
        TopLevelCategory::new("Developer", "Developer tools and configurations", developer_tweaks),
        TopLevelCategory::new("Performance", "Optimize system performance", performance_tweaks),
        TopLevelCategory::new("Animated Wallpapers", "Enable animated wallpapers", animated_wallpapers_tweaks),
        TopLevelCategory::new("Power Management", "Configure sleep and power settings", power_management_tweaks),
        TopLevelCategory::new("Networking", "Configure network settings", network_tweaks),
        TopLevelCategory::new("Optimization", "Apply system performance tweaks", optimization_tweaks),
        TopLevelCategory::new("Brew Management", "Manage Homebrew package manager", brew_tweaks),
        TopLevelCategory::new("About", "Application information and system details", about_tweaks),
        TopLevelCategory::new("Utilities", "Useful system utilities", utilities_tweaks),
    ];
    proof {
        reveal_with_fuel(trees_from, 14);
    }
    categories
}

} // verus!
