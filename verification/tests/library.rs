use std::collections::HashMap;

use r0le::decimal::decimal_string;
use r0le::emoji::ReactionEmoji;
use r0le::handler::{command_prefix, Handler, HandlerAction};
use r0le::keys::{binding_key, scope_pattern};
use r0le::menu::{setup, store_failure_notice, SetupRefusal, ButtonStyle, ComponentResponse, ReactionRoleAssignmentMenu};
use r0le::opts::{store_client, Opts};
use r0le::roles::{component_id, parse_setup_roles};
use r0le::store::{create_command, delete_command, delete_found_keys, get_command, StoreCommand};

fn unicode(s: &str) -> ReactionEmoji {
    ReactionEmoji::Unicode(s.to_string())
}

fn custom(name: Option<&str>, id: u64) -> ReactionEmoji {
    ReactionEmoji::Custom { animated: false, id, name: name.map(|n| n.to_string()) }
}

fn strings(v: &[&str]) -> Vec<String> {
    v.iter().map(|s| s.to_string()).collect()
}

/// A small in-memory store that carries out store commands, with `*` as the
/// only wildcard of scan patterns.
#[derive(Default)]
struct MemoryStore {
    hashes: HashMap<String, HashMap<String, u64>>,
}

fn glob(p: &[char], t: &[char]) -> bool {
    match p.first() {
        None => t.is_empty(),
        Some('*') => glob(&p[1..], t) || (!t.is_empty() && glob(p, &t[1..])),
        Some(c) => !t.is_empty() && t[0] == *c && glob(&p[1..], &t[1..]),
    }
}

impl MemoryStore {
    fn run(&mut self, cmd: StoreCommand) -> Option<u64> {
        match cmd {
            StoreCommand::SetField { key, field, role } => {
                self.hashes.entry(key).or_default().insert(field, role);
                None
            }
            StoreCommand::GetField { key, field } => self.hashes.get(&key).and_then(|h| h.get(&field).copied()),
            StoreCommand::DeleteKeys { keys } => {
                for k in keys {
                    self.hashes.remove(&k);
                }
                None
            }
            StoreCommand::ScanKeys { pattern } => {
                let p: Vec<char> = pattern.chars().collect();
                let found: Vec<String> = self
                    .hashes
                    .keys()
                    .filter(|k| glob(&p, &k.chars().collect::<Vec<char>>()))
                    .cloned()
                    .collect();
                if let Some(next) = delete_found_keys(found) {
                    self.run(next);
                }
                None
            }
        }
    }

    fn get(&mut self, g: u64, c: u64, m: u64, e: &ReactionEmoji) -> Option<u64> {
        self.run(get_command(g, c, m, e))
    }
}

#[test]
fn decimal_text_of_numbers() {
    assert_eq!(decimal_string(0), "0");
    assert_eq!(decimal_string(7), "7");
    assert_eq!(decimal_string(10), "10");
    assert_eq!(decimal_string(1234567890), "1234567890");
    assert_eq!(decimal_string(u64::MAX), "18446744073709551615");
}

#[test]
fn binding_key_layout() {
    assert_eq!(binding_key(1, 22, 333), "1:22:333");
    assert_eq!(binding_key(0, 0, 0), "0:0:0");
}

#[test]
fn scope_patterns_use_star_for_absent_parts() {
    assert_eq!(scope_pattern(5, Some(6), Some(7)), "5:6:7");
    assert_eq!(scope_pattern(5, Some(6), None), "5:6:*");
    assert_eq!(scope_pattern(5, None, None), "5:*:*");
    assert_eq!(scope_pattern(5, None, Some(7)), "5:*:7");
}

fn field_of(e: &ReactionEmoji) -> String {
    match get_command(1, 2, 3, e) {
        StoreCommand::GetField { field, .. } => field,
        _ => panic!("expected a field read"),
    }
}

#[test]
fn reaction_data_of_emojis() {
    assert_eq!(field_of(&unicode("👍")), "👍");
    assert_eq!(field_of(&custom(Some("party"), 42)), "party:42");
    assert_eq!(field_of(&custom(None, 42)), ":42");
}

#[test]
fn create_and_get_address_the_same_field() {
    let e = custom(Some("wave"), 900);
    match create_command(1, 2, 3, &e, 77) {
        StoreCommand::SetField { key, field, role } => {
            assert_eq!(key, "1:2:3");
            assert_eq!(field, "wave:900");
            assert_eq!(role, 77);
        }
        _ => panic!("expected a field write"),
    }
    match get_command(1, 2, 3, &e) {
        StoreCommand::GetField { key, field } => {
            assert_eq!(key, "1:2:3");
            assert_eq!(field, "wave:900");
        }
        _ => panic!("expected a field read"),
    }
}

#[test]
fn delete_commands() {
    match delete_command(1, Some(2), Some(3), Some(&unicode("x"))) {
        StoreCommand::DeleteKeys { keys } => assert_eq!(keys, strings(&["1:2:3:x"])),
        _ => panic!("expected a key removal"),
    }
    match delete_command(1, Some(2), None, None) {
        StoreCommand::ScanKeys { pattern } => assert_eq!(pattern, "1:2:*"),
        _ => panic!("expected a scan"),
    }
    assert!(delete_found_keys(Vec::new()).is_none());
    match delete_found_keys(strings(&["1:2:3", "1:2:4"])) {
        Some(StoreCommand::DeleteKeys { keys }) => assert_eq!(keys, strings(&["1:2:3", "1:2:4"])),
        _ => panic!("expected a key removal"),
    }
}

#[test]
fn get_after_create_gives_the_role() {
    let mut store = MemoryStore::default();
    let e = unicode("🎉");
    store.run(create_command(10, 20, 30, &e, 555));
    assert_eq!(store.get(10, 20, 30, &e), Some(555));
}

#[test]
fn create_keeps_other_bindings() {
    let mut store = MemoryStore::default();
    let a = unicode("a");
    let b = unicode("b");
    store.run(create_command(1, 2, 3, &a, 100));
    store.run(create_command(1, 2, 3, &b, 200));
    store.run(create_command(1, 23, 3, &a, 300));
    store.run(create_command(12, 3, 3, &a, 400));
    assert_eq!(store.get(1, 2, 3, &a), Some(100));
    assert_eq!(store.get(1, 2, 3, &b), Some(200));
    assert_eq!(store.get(1, 23, 3, &a), Some(300));
    assert_eq!(store.get(12, 3, 3, &a), Some(400));
    assert_eq!(store.get(1, 2, 33, &a), None);
}

fn filled_store(e: &ReactionEmoji) -> MemoryStore {
    let mut store = MemoryStore::default();
    for (g, c, m) in [(1, 2, 3), (1, 2, 4), (1, 5, 3), (11, 2, 3), (2, 1, 3)] {
        store.run(create_command(g, c, m, e, g * 100 + c * 10 + m));
    }
    store
}

#[test]
fn scoped_delete_of_a_message() {
    let e = unicode("e");
    let mut store = filled_store(&e);
    store.run(delete_command(1, Some(2), Some(3), None));
    assert_eq!(store.get(1, 2, 3, &e), None);
    assert_eq!(store.get(1, 2, 4, &e), Some(124));
    assert_eq!(store.get(1, 5, 3, &e), Some(153));
    assert_eq!(store.get(11, 2, 3, &e), Some(1123));
}

#[test]
fn scoped_delete_of_a_channel() {
    let e = unicode("e");
    let mut store = filled_store(&e);
    store.run(delete_command(1, Some(2), None, None));
    assert_eq!(store.get(1, 2, 3, &e), None);
    assert_eq!(store.get(1, 2, 4, &e), None);
    assert_eq!(store.get(1, 5, 3, &e), Some(153));
    assert_eq!(store.get(11, 2, 3, &e), Some(1123));
}

#[test]
fn scoped_delete_of_a_guild() {
    let e = unicode("e");
    let mut store = filled_store(&e);
    store.run(delete_command(1, None, None, None));
    assert_eq!(store.get(1, 2, 3, &e), None);
    assert_eq!(store.get(1, 2, 4, &e), None);
    assert_eq!(store.get(1, 5, 3, &e), None);
    assert_eq!(store.get(11, 2, 3, &e), Some(1123));
    assert_eq!(store.get(2, 1, 3, &e), Some(213));
}

#[test]
fn scoped_delete_of_a_message_in_any_channel() {
    let e = unicode("e");
    let mut store = filled_store(&e);
    store.run(delete_command(1, None, Some(3), None));
    assert_eq!(store.get(1, 2, 3, &e), None);
    assert_eq!(store.get(1, 5, 3, &e), None);
    assert_eq!(store.get(1, 2, 4, &e), Some(124));
    assert_eq!(store.get(11, 2, 3, &e), Some(1123));
}

#[test]
fn reaction_delete_leaves_the_binding() {
    let e = unicode("e");
    let mut store = filled_store(&e);
    store.run(delete_command(1, Some(2), Some(3), Some(&e)));
    assert_eq!(store.get(1, 2, 3, &e), Some(123));
}

#[test]
fn role_arguments() {
    let roles = parse_setup_roles(&strings(&["<@&1234>", "99", "+5", "abc", "<@&x>", "-3", "", "18446744073709551616", "<@1>"]));
    assert_eq!(roles, vec![1234, 99, 5]);
    assert!(parse_setup_roles(&Vec::new()).is_empty());
}

#[test]
fn role_mentions() {
    let menu = ReactionRoleAssignmentMenu::new(1, 2, vec![42]);
    assert_eq!(menu.embed(0).current_role.as_ref().map(|f| f.value.as_str()), Some("<@&42>"));
}

#[test]
fn component_ids() {
    assert_eq!(component_id(&"12783".to_string()), Some(12783));
    assert_eq!(component_id(&"-7".to_string()), Some(-7));
    assert_eq!(component_id(&"+8".to_string()), Some(8));
    assert_eq!(component_id(&"skip".to_string()), None);
    assert_eq!(component_id(&"2147483648".to_string()), None);
}

#[test]
fn setup_needs_roles_and_a_guild() {
    assert!(matches!(setup(1, Some(2), &strings(&["x", "y"])), Err(SetupRefusal::NoRoles)));
    assert!(matches!(setup(1, None, &strings(&["x"])), Err(SetupRefusal::NoRoles)));
    assert!(matches!(setup(1, None, &strings(&["10"])), Err(SetupRefusal::NoGuild)));
    let menu = match setup(1, Some(2), &strings(&["10", "<@&20>"])) {
        Ok(menu) => menu,
        Err(_) => panic!("expected a menu"),
    };
    assert_eq!(menu.author(), 1);
    assert_eq!(menu.guild(), 2);
    assert_eq!(menu.role_count(), 2);
    assert!(menu.is_open());
}

#[test]
fn first_menu_message() {
    let menu = ReactionRoleAssignmentMenu::new(7, 8, vec![10, 20, 30]);
    let layout = menu.create_ui();
    assert_eq!(layout.buttons.len(), 2);
    assert_eq!(layout.buttons[0].label, "skip");
    assert!(matches!(layout.buttons[0].style, ButtonStyle::Secondary));
    assert_eq!(layout.buttons[0].custom_id, 23847);
    assert_eq!(layout.buttons[1].label, "cancel");
    assert!(matches!(layout.buttons[1].style, ButtonStyle::Danger));
    assert_eq!(layout.buttons[1].custom_id, 12783);
    assert_eq!(layout.embed.title, "Reaction role setup");
    assert_eq!(layout.embed.description, "React to the messages with the emojis that should trigger the reaction roles.");
    assert_eq!(layout.embed.current_role.as_ref().map(|f| (f.name.as_str(), f.value.as_str(), f.inline)), Some(("current role", "<@&10>", true)));
    assert_eq!(layout.embed.footer, "0/3");
}

#[test]
fn embed_past_the_last_role() {
    let menu = ReactionRoleAssignmentMenu::new(7, 8, vec![10, 20]);
    let embed = menu.embed(2);
    assert!(embed.current_role.is_none());
    assert_eq!(embed.footer, "2/2");
}

fn bound_role(cmd: StoreCommand) -> u64 {
    match cmd {
        StoreCommand::SetField { role, .. } => role,
        _ => panic!("expected a field write"),
    }
}

#[test]
fn roles_are_assigned_in_order() {
    let e = unicode("e");
    let mut menu = ReactionRoleAssignmentMenu::new(7, 8, vec![10, 20, 30]);
    match menu.process(1, 2, &e) {
        StoreCommand::SetField { key, field, role } => {
            assert_eq!(key, "8:1:2");
            assert_eq!(field, "e");
            assert_eq!(role, 10);
        }
        _ => panic!("expected a field write"),
    }
    let out = menu.stored();
    assert!(!out.finished);
    assert_eq!(out.embed.footer, "1/3");
    assert_eq!(out.embed.current_role.as_ref().map(|f| (f.name.as_str(), f.value.as_str(), f.inline)), Some(("current role", "<@&20>", true)));
    assert_eq!(bound_role(menu.process(1, 3, &e)), 20);
    assert!(!menu.stored().finished);
    assert_eq!(bound_role(menu.process(1, 4, &e)), 30);
    let out = menu.stored();
    assert!(out.finished);
    assert_eq!(out.embed.footer, "3/3");
    assert!(out.embed.current_role.is_none());
    assert!(!menu.is_open());
}

#[test]
fn skip_moves_on_and_ends_after_the_last_role() {
    let mut menu = ReactionRoleAssignmentMenu::new(7, 8, vec![10, 20]);
    let out = menu.ui_event(ReactionRoleAssignmentMenu::SKIP_ID);
    assert!(!out.finished);
    match out.response {
        Some(ComponentResponse::UpdateEmbed(embed)) => {
            assert_eq!(embed.footer, "1/2");
            assert_eq!(embed.current_role.as_ref().map(|f| (f.name.as_str(), f.value.as_str(), f.inline)), Some(("current role", "<@&20>", true)));
        }
        _ => panic!("expected an embed update"),
    }
    let out = menu.ui_event(ReactionRoleAssignmentMenu::SKIP_ID);
    assert!(out.finished);
    assert!(out.response.is_none());
    assert!(!menu.is_open());
}

#[test]
fn reaction_after_skip_binds_the_listener_position() {
    let e = unicode("e");
    let mut menu = ReactionRoleAssignmentMenu::new(7, 8, vec![10, 20, 30]);
    menu.ui_event(ReactionRoleAssignmentMenu::SKIP_ID);
    assert_eq!(bound_role(menu.process(1, 2, &e)), 10);
    let out = menu.stored();
    assert_eq!(out.embed.footer, "2/3");
    assert_eq!(bound_role(menu.process(1, 3, &e)), 30);
}

#[test]
fn cancel_ends_the_menu() {
    let mut menu = ReactionRoleAssignmentMenu::new(7, 8, vec![10, 20]);
    let out = menu.ui_event(ReactionRoleAssignmentMenu::CANCEL_ID);
    assert!(out.finished);
    assert!(matches!(out.response, Some(ComponentResponse::DeferredUpdate)));
    assert!(!menu.is_open());
}

#[test]
fn other_buttons_change_nothing() {
    let mut menu = ReactionRoleAssignmentMenu::new(7, 8, vec![10, 20]);
    let out = menu.ui_event(1);
    assert!(!out.finished);
    assert!(out.response.is_none());
    assert!(menu.is_open());
    assert_eq!(menu.stored().embed.footer, "1/2");
}

#[test]
fn no_more_reactions_ends_the_menu() {
    let mut menu = ReactionRoleAssignmentMenu::new(7, 8, vec![10]);
    menu.reactions_ended();
    assert!(!menu.is_open());
}

#[test]
fn failure_notice_text() {
    assert_eq!(
        store_failure_notice(),
        "an error occurred while trying to add reaction handler - please contact the developer to resolve the issue"
    );
}

#[test]
fn own_reactions_do_not_change_roles() {
    let h = Handler(99);
    assert!(matches!(h.reaction_add(Some(99), Some(1), 2, 3, &unicode("e")), HandlerAction::Nothing));
    assert!(matches!(h.reaction_add(Some(99), None, 2, 3, &unicode("e")), HandlerAction::Nothing));
}

#[test]
fn reaction_add_gives_the_bound_role() {
    let h = Handler(99);
    match h.reaction_add(Some(5), Some(1), 2, 3, &unicode("e")) {
        HandlerAction::AddRole { guild, user, lookup: StoreCommand::GetField { key, field } } => {
            assert_eq!((guild, user), (1, 5));
            assert_eq!(key, "1:2:3");
            assert_eq!(field, "e");
        }
        _ => panic!("expected a role grant"),
    }
}

#[test]
fn reaction_remove_takes_the_role_and_ignores_own_reactions() {
    let h = Handler(99);
    match h.reaction_remove(Some(5), Some(1), 2, 3, &unicode("e")) {
        HandlerAction::RemoveRole { guild, user, lookup: StoreCommand::GetField { key, field } } => {
            assert_eq!((guild, user), (1, 5));
            assert_eq!(key, "1:2:3");
            assert_eq!(field, "e");
        }
        _ => panic!("expected a role removal"),
    }
    assert!(matches!(h.reaction_remove(Some(99), Some(1), 2, 3, &custom(Some("n"), 4)), HandlerAction::Nothing));
}

#[test]
fn deletion_events_leave_the_store_alone() {
    let h = Handler(99);
    assert!(matches!(h.message_delete(2, 3, Some(1)), HandlerAction::Nothing));
    assert!(matches!(h.channel_delete(1, 2), HandlerAction::Nothing));
    assert!(matches!(h.guild_delete(1), HandlerAction::Nothing));
}

#[test]
fn ready_greeting() {
    let g = Handler(1).ready(&"r0le".to_string());
    assert_eq!(g.watching, "~help");
    assert_eq!(g.announcement, "r0le is connected!");
    assert_eq!(command_prefix(), "~");
}

#[test]
fn store_url_defaults_to_local() {
    let opts = Opts { token: "t".to_string(), application_id: 1, redis_url: None };
    assert_eq!(opts.store_url(), "redis://127.0.0.1");
    let opts = Opts { token: "t".to_string(), application_id: 1, redis_url: Some("redis://db".to_string()) };
    assert_eq!(opts.store_url(), "redis://db");
}

#[test]
fn store_addresses() {
    assert!(store_client("redis://127.0.0.1".to_string()).is_ok());
    assert!(store_client("redis://db:6380/2".to_string()).is_ok());
    assert!(store_client("http://127.0.0.1".to_string()).is_err());
    assert!(store_client("not a url".to_string()).is_err());
    assert!(store_client("redis://127.0.0.1/x".to_string()).is_err());
}

fn role_change(store: &mut MemoryStore, action: HandlerAction) -> Option<(u64, u64, u64)> {
    match action {
        HandlerAction::AddRole { guild, user, lookup } | HandlerAction::RemoveRole { guild, user, lookup } => {
            store.run(lookup).map(|r| (guild, user, r))
        }
        HandlerAction::Nothing => None,
    }
}

#[test]
fn role_changes_follow_bindings() {
    let h = Handler(99);
    let e = unicode("e");
    let mut store = MemoryStore::default();
    store.run(create_command(1, 2, 3, &e, 77));
    assert_eq!(role_change(&mut store, h.reaction_add(Some(5), Some(1), 2, 3, &e)), Some((1, 5, 77)));
    assert_eq!(role_change(&mut store, h.reaction_remove(Some(5), Some(1), 2, 3, &e)), Some((1, 5, 77)));
    assert_eq!(role_change(&mut store, h.reaction_add(Some(5), Some(1), 2, 4, &e)), None);
    assert_eq!(role_change(&mut store, h.reaction_add(Some(5), Some(1), 2, 3, &unicode("f"))), None);
    assert_eq!(role_change(&mut store, h.reaction_add(Some(99), Some(1), 2, 3, &e)), None);
}
