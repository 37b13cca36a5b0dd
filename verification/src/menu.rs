//! What the tray shows and what its events mean: the menu as a list of
//! entries, the label of each profile, and the action behind each click.

use crate::text::{has_prefix, same_text, strip_prefix};
use crate::types::{
    profile_views, status_views, Profile, ProfileStatus, ProfileView, StatusView,
};
use vstd::prelude::*;

verus! {

/// The platform that the tray runs on.
#[derive(Debug, Clone, Copy, PartialEq, Eq, Structural)]
pub enum Platform {
    Windows,
    MacOs,
    Linux,
}

/// The icon that stands for a status; no icon stands for no match.
pub open spec fn icon_of(status: StatusView) -> Seq<char> {
    match status {
        StatusView::FullMatch => "✅"@,
        StatusView::PartialMatch => "🔄"@,
        StatusView::Error(_) => "❌"@,
        StatusView::NoMatch => ""@,
    }
}

/// The icon that stands for `status`.
pub fn status_icon(status: &ProfileStatus) -> (r: &'static str)
    ensures
        r@ == icon_of(status@),
{
    match status {
        ProfileStatus::FullMatch => "✅",
        ProfileStatus::PartialMatch => "🔄",
        ProfileStatus::Error(_) => "❌",
        ProfileStatus::NoMatch => "",
    }
}

/// The icon for the status under an id: none where there is no status, as
/// for the live configuration.
pub fn status_icon_for(status: &Option<ProfileStatus>) -> (r: &'static str)
    ensures
        r@ == (match status {
            Some(s) => icon_of(s@),
            None => ""@,
        }),
{
    match status {
        Some(s) => status_icon(s),
        None => "",
    }
}

/// The label of a profile by its active mark: a check mark before the name
/// of the active one, a blank of the same width before any other.
pub open spec fn active_label(profile: ProfileView) -> Seq<char> {
    if profile.is_active {
        "✅ "@ + profile.name
    } else {
        "　  "@ + profile.name
    }
}

/// The label of `profile` by its active mark.
pub fn menu_text(profile: &Profile) -> (r: String)
    ensures
        r@ == active_label(profile@),
{
    if profile.is_active {
        String::from_str("✅ ").concat(profile.name.as_str())
    } else {
        String::from_str("　  ").concat(profile.name.as_str())
    }
}

/// The label of a profile by its status: the status icon before the name, a
/// blank of the same width where the status is no match.
pub open spec fn status_label(name: Seq<char>, status: StatusView) -> Seq<char> {
    match status {
        StatusView::FullMatch => "✅ "@ + name,
        StatusView::PartialMatch => "🔄 "@ + name,
        StatusView::NoMatch => "　  "@ + name,
        StatusView::Error(_) => "❌ "@ + name,
    }
}

/// The label of the profile `name` by its status.
pub fn status_menu_text(name: &str, status: &ProfileStatus) -> (r: String)
    ensures
        r@ == status_label(name@, status@),
{
    match status {
        ProfileStatus::FullMatch => String::from_str("✅ ").concat(name),
        ProfileStatus::PartialMatch => String::from_str("🔄 ").concat(name),
        ProfileStatus::NoMatch => String::from_str("　  ").concat(name),
        ProfileStatus::Error(_) => String::from_str("❌ ").concat(name),
    }
}

/// The id of the menu item of the profile `name`.
pub open spec fn item_id(name: Seq<char>) -> Seq<char> {
    "profile_"@ + name
}

/// The id of the menu item of the profile `name`.
pub fn profile_item_id(name: &str) -> (r: String)
    ensures
        r@ == item_id(name@),
{
    String::from_str("profile_").concat(name)
}

/// One entry of the tray menu.
#[derive(Debug, Clone, PartialEq)]
pub enum MenuEntry {
    Item { id: String, text: String },
    Separator,
}

/// What a `MenuEntry` is, as plain values.
pub enum MenuEntryView {
    Item { id: Seq<char>, text: Seq<char> },
    Separator,
}

impl View for MenuEntry {
    type V = MenuEntryView;

    open spec fn view(&self) -> MenuEntryView {
        match self {
            MenuEntry::Item { id, text } => MenuEntryView::Item { id: id@, text: text@ },
            MenuEntry::Separator => MenuEntryView::Separator,
        }
    }
}

/// The views of a list of menu entries, in order.
pub open spec fn entry_views(entries: Seq<MenuEntry>) -> Seq<MenuEntryView> {
    Seq::new(entries.len(), |i: int| entries[i]@)
}

/// The entry that opens the settings.
pub open spec fn settings_entry() -> MenuEntryView {
    MenuEntryView::Item { id: "settings"@, text: "Settings"@ }
}

/// The entry that ends the program.
pub open spec fn exit_entry() -> MenuEntryView {
    MenuEntryView::Item { id: "exit"@, text: "Exit"@ }
}

/// An entry with the id `id` and the text `text`.
fn item(id: &str, text: &str) -> (r: MenuEntry)
    ensures
        r@ == (MenuEntryView::Item { id: id@, text: text@ }),
{
    MenuEntry::Item { id: String::from_str(id), text: String::from_str(text) }
}

/// The menu before any profile is known.
pub fn basic_menu() -> (r: Vec<MenuEntry>)
    ensures
        entry_views(r@) == seq![
            MenuEntryView::Item { id: "test"@, text: "TEST MENU"@ },
            settings_entry(),
            exit_entry(),
        ],
{
    let mut menu: Vec<MenuEntry> = Vec::new();
    menu.push(item("test", "TEST MENU"));
    menu.push(item("settings", "Settings"));
    menu.push(item("exit", "Exit"));
    assert(entry_views(menu@) =~= seq![
        MenuEntryView::Item { id: "test"@, text: "TEST MENU"@ },
        settings_entry(),
        exit_entry(),
    ]);
    menu
}

/// The menu to fall back on where the basic menu cannot be built.
pub fn fallback_menu() -> (r: Vec<MenuEntry>)
    ensures
        entry_views(r@) == seq![settings_entry(), MenuEntryView::Separator, exit_entry()],
{
    let mut menu: Vec<MenuEntry> = Vec::new();
    menu.push(item("settings", "Settings"));
    menu.push(MenuEntry::Separator);
    menu.push(item("exit", "Exit"));
    assert(entry_views(menu@) =~= seq![
        settings_entry(),
        MenuEntryView::Separator,
        exit_entry(),
    ]);
    menu
}

/// The items of the profiles by their active marks, in order.
pub open spec fn active_items(profiles: Seq<ProfileView>) -> Seq<MenuEntryView> {
    Seq::new(
        profiles.len(),
        |i: int|
            MenuEntryView::Item { id: item_id(profiles[i].name), text: active_label(profiles[i]) },
    )
}

/// The menu of the profiles by their active marks: the profiles, a separator
/// where there is a profile, then settings and exit.
pub open spec fn active_menu(profiles: Seq<ProfileView>) -> Seq<MenuEntryView> {
    if profiles.len() == 0 {
        seq![settings_entry(), exit_entry()]
    } else {
        active_items(profiles) + seq![MenuEntryView::Separator, settings_entry(), exit_entry()]
    }
}

/// The menu of `profiles` by their active marks.
pub fn build_menu(profiles: &[Profile]) -> (r: Vec<MenuEntry>)
    ensures
        entry_views(r@) == active_menu(profile_views(profiles@)),
{
    let mut menu: Vec<MenuEntry> = Vec::new();
    let mut i: usize = 0;
    while i < profiles.len()
        invariant
            i <= profiles@.len(),
            menu@.len() == i,
            forall|k: int| 0 <= k < i ==> menu@[k]@ == active_items(profile_views(profiles@))[k],
        decreases profiles@.len() - i,
    {
        let profile = &profiles[i];
        menu.push(
            MenuEntry::Item {
                id: profile_item_id(profile.name.as_str()),
                text: menu_text(profile),
            },
        );
        i += 1;
    }
    if profiles.len() > 0 {
        menu.push(MenuEntry::Separator);
    }
    menu.push(item("settings", "Settings"));
    menu.push(item("exit", "Exit"));
    assert(entry_views(menu@) =~= active_menu(profile_views(profiles@)));
    menu
}

/// The number of profiles that have a status: a profile without a status has
/// no item.
pub open spec fn paired(profiles: Seq<ProfileView>, statuses: Seq<StatusView>) -> nat {
    if profiles.len() <= statuses.len() {
        profiles.len()
    } else {
        statuses.len()
    }
}

/// The items of the profiles by their statuses, in order.
pub open spec fn status_items(profiles: Seq<ProfileView>, statuses: Seq<StatusView>) -> Seq<
    MenuEntryView,
> {
    Seq::new(
        paired(profiles, statuses),
        |i: int|
            MenuEntryView::Item {
                id: item_id(profiles[i].name),
                text: status_label(profiles[i].name, statuses[i]),
            },
    )
}

/// The menu of the profiles by their statuses: a note that there are no
/// profiles where there are none, else the profiles; then settings and exit.
pub open spec fn status_menu(profiles: Seq<ProfileView>, statuses: Seq<StatusView>) -> Seq<
    MenuEntryView,
> {
    if profiles.len() == 0 {
        seq![
            MenuEntryView::Item { id: "no_profiles"@, text: "No profiles found"@ },
            settings_entry(),
            exit_entry(),
        ]
    } else {
        status_items(profiles, statuses) + seq![settings_entry(), exit_entry()]
    }
}

/// The menu of `profiles` by their statuses, `statuses[i]` being that of the
/// profile at `i`.
pub fn build_status_menu(profiles: &[Profile], statuses: &[ProfileStatus]) -> (r: Vec<MenuEntry>)
    ensures
        entry_views(r@) == status_menu(profile_views(profiles@), status_views(statuses@)),
{
    let mut menu: Vec<MenuEntry> = Vec::new();
    if profiles.len() == 0 {
        menu.push(item("no_profiles", "No profiles found"));
    } else {
        let n = if profiles.len() <= statuses.len() {
            profiles.len()
        } else {
            statuses.len()
        };
        let mut i: usize = 0;
        while i < n
            invariant
                i <= n,
                n == paired(profile_views(profiles@), status_views(statuses@)),
                menu@.len() == i,
                forall|k: int|
                    0 <= k < i ==> menu@[k]@ == status_items(
                        profile_views(profiles@),
                        status_views(statuses@),
                    )[k],
            decreases n - i,
        {
            let profile = &profiles[i];
            menu.push(
                MenuEntry::Item {
                    id: profile_item_id(profile.name.as_str()),
                    text: status_menu_text(profile.name.as_str(), &statuses[i]),
                },
            );
            i += 1;
        }
    }
    menu.push(item("settings", "Settings"));
    menu.push(item("exit", "Exit"));
    assert(entry_views(menu@) =~= status_menu(profile_views(profiles@), status_views(statuses@)));
    menu
}

/// A passing status of one profile, as while it is being switched to.
#[derive(Debug, Clone)]
pub struct StatusUpdate {
    pub profile_name: String,
    pub status: String,
}

/// What a `StatusUpdate` is, as plain values.
pub struct StatusUpdateView {
    pub profile_name: Seq<char>,
    pub status: Seq<char>,
}

impl View for StatusUpdate {
    type V = StatusUpdateView;

    open spec fn view(&self) -> StatusUpdateView {
        StatusUpdateView { profile_name: self.profile_name@, status: self.status@ }
    }
}

/// The views of a list of status updates, in order.
pub open spec fn update_views(updates: Seq<StatusUpdate>) -> Seq<StatusUpdateView> {
    Seq::new(updates.len(), |i: int| updates[i]@)
}

/// The index of the last update for the profile `name`, or -1.
pub open spec fn update_index(updates: Seq<StatusUpdateView>, name: Seq<char>) -> int
    decreases updates.len(),
{
    if updates.len() == 0 {
        -1
    } else if updates.last().profile_name == name {
        updates.len() - 1
    } else {
        update_index(updates.drop_last(), name)
    }
}

/// The label of a profile under passing statuses: the passing status before
/// the name where the profile has one, else the label by its active mark.
pub open spec fn updated_label(profile: ProfileView, updates: Seq<StatusUpdateView>) -> Seq<char> {
    let i = update_index(updates, profile.name);
    if i >= 0 {
        updates[i].status + " "@ + profile.name
    } else {
        active_label(profile)
    }
}

/// The items of the profiles under passing statuses, in order.
pub open spec fn updated_items(profiles: Seq<ProfileView>, updates: Seq<StatusUpdateView>) -> Seq<
    MenuEntryView,
> {
    Seq::new(
        profiles.len(),
        |i: int|
            MenuEntryView::Item {
                id: item_id(profiles[i].name),
                text: updated_label(profiles[i], updates),
            },
    )
}

/// The menu of the profiles under passing statuses: the profiles, a separator
/// where there is a profile, then settings and exit.
pub open spec fn updated_menu(profiles: Seq<ProfileView>, updates: Seq<StatusUpdateView>) -> Seq<
    MenuEntryView,
> {
    if profiles.len() == 0 {
        seq![settings_entry(), exit_entry()]
    } else {
        updated_items(profiles, updates) + seq![
            MenuEntryView::Separator,
            settings_entry(),
            exit_entry(),
        ]
    }
}

/// What `update_index` finds: the update at the index is for the name and
/// none after it is; -1 means that no update is for the name.
pub proof fn lemma_update_index(updates: Seq<StatusUpdateView>, name: Seq<char>)
    ensures
        -1 <= update_index(updates, name) < updates.len(),
        update_index(updates, name) >= 0 ==> updates[update_index(updates, name)].profile_name
            == name,
        forall|j: int|
            update_index(updates, name) < j < updates.len() ==> updates[j].profile_name != name,
    decreases updates.len(),
{
    if updates.len() > 0 && updates.last().profile_name != name {
        lemma_update_index(updates.drop_last(), name);
        assert forall|j: int| update_index(updates, name) < j < updates.len() implies updates[j].profile_name
            != name by {
            if j < updates.len() - 1 {
                assert(updates.drop_last()[j] == updates[j]);
            }
        }
    }
}

/// The label of `profile` under the passing statuses `updates`.
pub fn updated_menu_text(profile: &Profile, updates: &[StatusUpdate]) -> (r: String)
    ensures
        r@ == updated_label(profile@, update_views(updates@)),
{
    let ghost views = update_views(updates@);
    let mut i: usize = updates.len();
    while i > 0
        invariant
            i <= updates@.len(),
            views == update_views(updates@),
            forall|j: int| i <= j < views.len() ==> views[j].profile_name != profile.name@,
        decreases i,
    {
        i -= 1;
        if updates[i].profile_name == profile.name {
            proof {
                assert(views[i as int].profile_name == profile.name@);
                lemma_update_index(views, profile.name@);
            }
            return updates[i].status.clone().concat(" ").concat(profile.name.as_str());
        }
    }
    proof {
        lemma_update_index(views, profile.name@);
    }
    menu_text(profile)
}

/// The menu of `profiles` under the passing statuses `updates`.
pub fn build_menu_with_status(profiles: &[Profile], updates: &[StatusUpdate]) -> (r: Vec<
    MenuEntry,
>)
    ensures
        entry_views(r@) == updated_menu(profile_views(profiles@), update_views(updates@)),
{
    let mut menu: Vec<MenuEntry> = Vec::new();
    let mut i: usize = 0;
    while i < profiles.len()
        invariant
            i <= profiles@.len(),
            menu@.len() == i,
            forall|k: int|
                0 <= k < i ==> menu@[k]@ == updated_items(
                    profile_views(profiles@),
                    update_views(updates@),
                )[k],
        decreases profiles@.len() - i,
    {
        let profile = &profiles[i];
        menu.push(
            MenuEntry::Item {
                id: profile_item_id(profile.name.as_str()),
                text: updated_menu_text(profile, updates),
            },
        );
        i += 1;
    }
    if profiles.len() > 0 {
        menu.push(MenuEntry::Separator);
    }
    menu.push(item("settings", "Settings"));
    menu.push(item("exit", "Exit"));
    assert(entry_views(menu@) =~= updated_menu(profile_views(profiles@), update_views(updates@)));
    menu
}

/// What a click on a menu item asks for.
#[derive(Debug, Clone, PartialEq)]
pub enum MenuAction {
    OpenSettings,
    Exit,
    SwitchProfile(String),
    Unhandled,
}

/// What a `MenuAction` is, as plain values.
pub enum MenuActionView {
    OpenSettings,
    Exit,
    SwitchProfile(Seq<char>),
    Unhandled,
}

impl View for MenuAction {
    type V = MenuActionView;

    open spec fn view(&self) -> MenuActionView {
        match self {
            MenuAction::OpenSettings => MenuActionView::OpenSettings,
            MenuAction::Exit => MenuActionView::Exit,
            MenuAction::SwitchProfile(name) => MenuActionView::SwitchProfile(name@),
            MenuAction::Unhandled => MenuActionView::Unhandled,
        }
    }
}

/// What a click on the menu item with the id `id` asks for: the settings,
/// the end of the program, or the switch to the profile whose name follows
/// the profile prefix. Any other id asks for nothing.
pub open spec fn action_of(id: Seq<char>) -> MenuActionView {
    if id == "settings"@ {
        MenuActionView::OpenSettings
    } else if id == "exit"@ {
        MenuActionView::Exit
    } else if has_prefix(id, "profile_"@) {
        MenuActionView::SwitchProfile(id.subrange("profile_"@.len() as int, id.len() as int))
    } else {
        MenuActionView::Unhandled
    }
}

/// What a click on the menu item with the id `event_id` asks for.
pub fn classify_menu_event(event_id: &str) -> (r: MenuAction)
    ensures
        r@ == action_of(event_id@),
{
    if same_text(event_id, "settings") {
        MenuAction::OpenSettings
    } else if same_text(event_id, "exit") {
        MenuAction::Exit
    } else {
        match strip_prefix(event_id, "profile_") {
            Some(name) => MenuAction::SwitchProfile(String::from_str(name)),
            None => MenuAction::Unhandled,
        }
    }
}

/// A button of the mouse.
#[derive(Debug, Clone, Copy, PartialEq, Eq, Structural)]
pub enum MouseButton {
    Left,
    Right,
    Middle,
}

/// Whether a button went down or came up.
#[derive(Debug, Clone, Copy, PartialEq, Eq, Structural)]
pub enum ButtonState {
    Up,
    Down,
}

/// What happened to the tray icon.
#[derive(Debug, Clone, Copy, PartialEq, Eq, Structural)]
pub enum TrayEvent {
    Click { button: MouseButton, state: ButtonState },
    DoubleClick { button: MouseButton },
    Enter,
    Move,
    Leave,
}

/// What an event on the tray icon asks for.
#[derive(Debug, Clone, Copy, PartialEq, Eq, Structural)]
pub enum TrayAction {
    /// Scan the profile directory again.
    RefreshProfiles,
    /// Open the settings window.
    OpenSettings,
}

/// What an event on the tray icon asks for, in order.
///
/// A released left click refreshes the profiles, and on Windows, where the
/// tray shows no menu, opens the settings too. A double click with the left
/// button opens the settings, except on Windows. The mouse entering the icon
/// refreshes the profiles. A released right click refreshes the profiles, and
/// on Windows opens the settings too. Nothing else asks for anything.
pub open spec fn tray_actions(event: TrayEvent, platform: Platform) -> Seq<TrayAction> {
    match event {
        TrayEvent::Click { button: MouseButton::Left, state: ButtonState::Up } => if platform
            == Platform::Windows {
            seq![TrayAction::RefreshProfiles, TrayAction::OpenSettings]
        } else {
            seq![TrayAction::RefreshProfiles]
        },
        TrayEvent::DoubleClick { button: MouseButton::Left } => if platform == Platform::Windows {
            Seq::empty()
        } else {
            seq![TrayAction::OpenSettings]
        },
        TrayEvent::Enter => seq![TrayAction::RefreshProfiles],
        TrayEvent::Click { button: MouseButton::Right, state: ButtonState::Up } => if platform
            == Platform::Windows {
            seq![TrayAction::RefreshProfiles, TrayAction::OpenSettings]
        } else {
            seq![TrayAction::RefreshProfiles]
        },
        _ => Seq::empty(),
    }
}

/// What `event` on the tray icon asks for on `platform`, in order.
pub fn tray_event_actions(event: TrayEvent, platform: Platform) -> (r: Vec<TrayAction>)
    ensures
        r@ == tray_actions(event, platform),
{
    let mut actions: Vec<TrayAction> = Vec::new();
    let windows = match platform {
        Platform::Windows => true,
        _ => false,
    };
    match event {
        TrayEvent::Click { button: MouseButton::Left, state: ButtonState::Up } => {
            actions.push(TrayAction::RefreshProfiles);
            if windows {
                actions.push(TrayAction::OpenSettings);
            }
        },
        TrayEvent::DoubleClick { button: MouseButton::Left } => {
            if !windows {
                actions.push(TrayAction::OpenSettings);
            }
        },
        TrayEvent::Enter => {
            actions.push(TrayAction::RefreshProfiles);
        },
        TrayEvent::Click { button: MouseButton::Right, state: ButtonState::Up } => {
            actions.push(TrayAction::RefreshProfiles);
            if windows {
                actions.push(TrayAction::OpenSettings);
            }
        },
        _ => {},
    }
    assert(actions@ =~= tray_actions(event, platform));
    actions
}

/// The name of the event that carries `action` to the rest of the program.
pub fn event_name(action: TrayAction) -> (r: &'static str)
    ensures
        r@ == (match action {
            TrayAction::RefreshProfiles => "tray_icon_hover"@,
            TrayAction::OpenSettings => "menu_settings_clicked"@,
        }),
{
    match action {
        TrayAction::RefreshProfiles => "tray_icon_hover",
        TrayAction::OpenSettings => "menu_settings_clicked",
    }
}

/// Whether the tray icon is drawn as a template image. It is not, on any
/// platform.
pub fn should_use_template_mode(platform: Platform) -> (r: bool)
    ensures
        !r,
{
    false
}

/// Whether a left click on the tray icon shows the menu. It does, on every
/// platform.
pub fn should_show_menu_on_left_click(platform: Platform) -> (r: bool)
    ensures
        r,
{
    true
}

/// The index of the first status that is a full match, or -1.
pub open spec fn first_match(statuses: Seq<StatusView>, from: int) -> int
    decreases statuses.len() - from,
{
    if from < 0 || from >= statuses.len() {
        -1
    } else if statuses[from] is FullMatch {
        from
    } else {
        first_match(statuses, from + 1)
    }
}

/// The place of the profile that the live configuration matches in full: the
/// first among `statuses` that is a full match.
pub fn first_full_match(statuses: &[ProfileStatus]) -> (r: Option<usize>)
    ensures
        match r {
            Some(i) => i == first_match(status_views(statuses@), 0),
            None => first_match(status_views(statuses@), 0) == -1,
        },
{
    let mut i: usize = 0;
    while i < statuses.len()
        invariant
            i <= statuses@.len(),
            first_match(status_views(statuses@), 0) == first_match(
                status_views(statuses@),
                i as int,
            ),
        decreases statuses@.len() - i,
    {
        assert(status_views(statuses@)[i as int] == statuses@[i as int]@);
        match &statuses[i] {
            ProfileStatus::FullMatch => {
                return Some(i);
            },
            _ => {},
        }
        i += 1;
    }
    None
}

} // verus!
