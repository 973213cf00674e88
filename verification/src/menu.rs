//! The interactive menu of the setup command. It walks through a list of
//! roles: each reaction the author adds (in the guild) is bound to the role
//! the menu is at, and a "skip" button moves on without binding. The menu
//! closes after the last role, on "cancel", or when no more reactions come.
//!
//! Two listeners share the menu: one for reactions and one for the buttons.
//! They share the counter of the next role to offer; the reaction listener
//! also keeps the position it last took from that counter, and binds
//! reactions to the role at that position.

use vstd::prelude::*;
use crate::decimal::{decimal, push_decimal};
use crate::emoji::{ReactionEmoji, emoji_data};
use crate::roles::{role_mention, role_mention_spec, parse_setup_roles, roles_named};
use crate::store::{StoreCommand, create_command, create_spec};

verus! {

/// The look of a menu button.
pub enum ButtonStyle {
    Primary,
    Secondary,
    Success,
    Danger,
}

/// A button of the menu.
pub struct MenuButton {
    pub label: String,
    pub style: ButtonStyle,
    pub custom_id: i32,
}

/// The embed that shows where the menu stands.
pub struct MenuEmbed {
    pub title: String,
    pub description: String,
    /// The field naming the role at the shown position, if there is one.
    pub current_role: Option<EmbedField>,
    /// `position/number of roles`.
    pub footer: String,
}

/// A field of an embed.
pub struct EmbedField {
    pub name: String,
    pub value: String,
    /// Shown beside other inline fields rather than on a line of its own.
    pub inline: bool,
}

/// The menu's first message: its buttons and its embed.
pub struct MenuLayout {
    pub buttons: Vec<MenuButton>,
    pub embed: MenuEmbed,
}

/// How to answer a button press.
pub enum ComponentResponse {
    /// Acknowledge without changing the message.
    DeferredUpdate,
    /// Replace the message's embed.
    UpdateEmbed(MenuEmbed),
}

/// What follows a button press.
pub struct UiOutcome {
    pub response: Option<ComponentResponse>,
    /// The menu is over.
    pub finished: bool,
}

/// What follows a binding that the store accepted.
pub struct StoredOutcome {
    /// The embed that the menu message now shows.
    pub embed: MenuEmbed,
    /// The menu is over.
    pub finished: bool,
}

/// The role-assignment menu.
pub struct ReactionRoleAssignmentMenu {
    author: u64,
    guild: u64,
    roles: Vec<u64>,
    /// The counter shared by both listeners: one more than the position of
    /// the next role to offer.
    role_assignment_state: usize,
    /// The position the reaction listener binds reactions to.
    position: usize,
    closed: bool,
}

/// The menu as plain values.
pub struct MenuView {
    pub author: u64,
    pub guild: u64,
    pub roles: Seq<u64>,
    pub state: nat,
    pub position: nat,
    pub closed: bool,
}

impl MenuView {
    /// The counter never passes one beyond the last role, and an open menu
    /// binds reactions to a role it has.
    pub open spec fn wf(self) -> bool {
        &&& 1 <= self.roles.len() < usize::MAX
        &&& 1 <= self.state <= self.roles.len() + 1
        &&& !self.closed ==> {
            &&& self.state <= self.roles.len()
            &&& self.position < self.state
        }
    }

    /// A new menu for `roles`.
    pub open spec fn initial(author: u64, guild: u64, roles: Seq<u64>) -> MenuView {
        MenuView { author, guild, roles, state: 1, position: 0, closed: false }
    }

    /// The role the next reaction is bound to.
    pub open spec fn pending_role(self) -> u64 {
        self.roles[self.position as int]
    }

    /// After the store accepted a binding: the listener takes the next
    /// position from the counter; the menu closes when that is past the
    /// last role.
    pub open spec fn after_stored(self) -> MenuView {
        MenuView {
            position: self.state,
            state: self.state + 1,
            closed: self.state == self.roles.len(),
            ..self
        }
    }

    /// After "skip": the counter moves on; the menu closes when it was past
    /// the last role.
    pub open spec fn after_skip(self) -> MenuView {
        MenuView { state: self.state + 1, closed: self.state == self.roles.len(), ..self }
    }

    /// Closed, otherwise unchanged.
    pub open spec fn after_close(self) -> MenuView {
        MenuView { closed: true, ..self }
    }

    /// The menu after `k` accepted bindings and nothing else.
    pub open spec fn after_stores(self, k: nat) -> MenuView
        decreases k,
    {
        if k == 0 {
            self
        } else {
            self.after_stores((k - 1) as nat).after_stored()
        }
    }

    /// The menu after a run of events from the two listeners, in order:
    /// `true` for a binding the store accepted, `false` for a press of "skip".
    pub open spec fn after_events(self, events: Seq<bool>) -> MenuView
        decreases events.len(),
    {
        if events.len() == 0 {
            self
        } else if events.last() {
            self.after_events(events.drop_last()).after_stored()
        } else {
            self.after_events(events.drop_last()).after_skip()
        }
    }
}

/// The number of events up to and including the last accepted binding, or
/// zero when there was none.
pub open spec fn events_through_last_binding(events: Seq<bool>) -> nat
    decreases events.len(),
{
    if events.len() == 0 {
        0
    } else if events.last() {
        events.len()
    } else {
        events_through_last_binding(events.drop_last())
    }
}

/// Bindings and skips share one counter. After any `n` of them, in any order,
/// with `n` at most the number of roles: the counter has moved `n` steps, the
/// menu is still open unless `n` reached the number of roles (a skip that is
/// not past the last role leaves it open), and the next reaction is bound to
/// the role at the position counted through the last accepted binding (so a
/// skip changes the role shown, not the role the reaction listener binds).
pub proof fn law_bindings_and_skips_share_the_counter(author: u64, guild: u64, roles: Seq<u64>, events: Seq<bool>)
    requires
        1 <= roles.len() < usize::MAX,
        events.len() <= roles.len(),
    ensures
        MenuView::initial(author, guild, roles).after_events(events).wf(),
        MenuView::initial(author, guild, roles).after_events(events).state == events.len() + 1,
        MenuView::initial(author, guild, roles).after_events(events).closed == (events.len() == roles.len()),
        MenuView::initial(author, guild, roles).after_events(events).position == events_through_last_binding(events),
        MenuView::initial(author, guild, roles).after_events(events).roles == roles,
        MenuView::initial(author, guild, roles).after_events(events).author == author,
        MenuView::initial(author, guild, roles).after_events(events).guild == guild,
    decreases events.len(),
{
    if events.len() > 0 {
        law_bindings_and_skips_share_the_counter(author, guild, roles, events.drop_last());
        if !events.last() {
            assert(events_through_last_binding(events) == events_through_last_binding(events.drop_last()));
        }
    }
}

/// A skip from an open menu moves the counter one step and keeps the menu
/// open unless it was at the last role; it leaves the roles and the role the
/// reaction listener binds unchanged.
pub proof fn law_skip_moves_on_by_one(v: MenuView)
    requires
        v.wf(),
        !v.closed,
    ensures
        v.after_skip().wf(),
        v.after_skip().state == v.state + 1,
        v.after_skip().closed == (v.state == v.roles.len()),
        v.state < v.roles.len() ==> !v.after_skip().closed,
        v.after_skip().roles == v.roles,
        v.after_skip().position == v.position,
        !v.after_skip().closed ==> v.after_skip().pending_role() == v.pending_role(),
{
}

/// Without skips, the menu hands out its roles in order: after `k` accepted
/// bindings the next reaction is bound to the `k`-th role (counting from
/// zero), and the menu closes exactly when every role has been bound.
pub proof fn law_roles_assigned_in_order(author: u64, guild: u64, roles: Seq<u64>, k: nat)
    requires
        1 <= roles.len() < usize::MAX,
        k <= roles.len(),
    ensures
        MenuView::initial(author, guild, roles).after_stores(k).wf(),
        MenuView::initial(author, guild, roles).after_stores(k).state == k + 1,
        MenuView::initial(author, guild, roles).after_stores(k).position == k,
        MenuView::initial(author, guild, roles).after_stores(k).roles == roles,
        MenuView::initial(author, guild, roles).after_stores(k).author == author,
        MenuView::initial(author, guild, roles).after_stores(k).guild == guild,
        MenuView::initial(author, guild, roles).after_stores(k).closed == (k == roles.len()),
        k < roles.len() ==> MenuView::initial(author, guild, roles).after_stores(k).pending_role() == roles[k as int],
    decreases k,
{
    if k > 0 {
        law_roles_assigned_in_order(author, guild, roles, (k - 1) as nat);
    }
}

impl View for ReactionRoleAssignmentMenu {
    type V = MenuView;

    closed spec fn view(&self) -> MenuView {
        MenuView {
            author: self.author,
            guild: self.guild,
            roles: self.roles@,
            state: self.role_assignment_state as nat,
            position: self.position as nat,
            closed: self.closed,
        }
    }
}

/// The embed's title.
pub open spec fn embed_title() -> Seq<char> {
    "Reaction role setup"@
}

/// The embed's description.
pub open spec fn embed_description() -> Seq<char> {
    "React to the messages with the emojis that should trigger the reaction roles."@
}

/// The text shown when the store refused a binding.
pub open spec fn failure_notice_spec() -> Seq<char> {
    "an error occurred while trying to add reaction handler - please contact the developer to resolve the issue"@
}

/// The name of the embed field that shows the current role.
pub open spec fn current_role_label() -> Seq<char> {
    "current role"@
}

/// The embed for position `pos` among `roles`: title, description, the
/// inline field "current role" with the mention of the role at `pos` (when
/// there is one), and the footer `pos/number of roles`.
pub open spec fn embed_spec(roles: Seq<u64>, pos: nat) -> (Seq<char>, Seq<char>, Option<(Seq<char>, Seq<char>, bool)>, Seq<char>) {
    (
        embed_title(),
        embed_description(),
        if pos < roles.len() { Some((current_role_label(), role_mention_spec(roles[pos as int]), true)) } else { None },
        decimal(pos) + seq!['/'] + decimal(roles.len()),
    )
}

impl MenuEmbed {
    /// The embed's texts.
    pub open spec fn texts(self) -> (Seq<char>, Seq<char>, Option<(Seq<char>, Seq<char>, bool)>, Seq<char>) {
        (
            self.title@,
            self.description@,
            match self.current_role {
                Some(f) => Some((f.name@, f.value@, f.inline)),
                None => None,
            },
            self.footer@,
        )
    }
}

impl ComponentResponse {
    /// The embed the response shows, if it replaces one.
    pub open spec fn shown_embed(self) -> Option<(Seq<char>, Seq<char>, Option<(Seq<char>, Seq<char>, bool)>, Seq<char>)> {
        match self {
            ComponentResponse::DeferredUpdate => None,
            ComponentResponse::UpdateEmbed(e) => Some(e.texts()),
        }
    }
}

/// The text shown when the store refused a binding.
pub fn store_failure_notice() -> (text: String)
    ensures
        text@ == failure_notice_spec(),
{
    String::from_str("an error occurred while trying to add reaction handler - please contact the developer to resolve the issue")
}

impl ReactionRoleAssignmentMenu {
    /// The custom id of the "cancel" button.
    pub const CANCEL_ID: i32 = 12783;

    /// The custom id of the "skip" button.
    pub const SKIP_ID: i32 = 23847;

    /// A menu for `roles`, started by `author` in `guild`.
    pub fn new(author: u64, guild: u64, roles: Vec<u64>) -> (menu: Self)
        requires
            1 <= roles.len() < usize::MAX,
        ensures
            menu@ == MenuView::initial(author, guild, roles@),
            menu@.wf(),
    {
        ReactionRoleAssignmentMenu { author, guild, roles, role_assignment_state: 1, position: 0, closed: false }
    }

    /// The user whose reactions and button presses the menu listens to.
    pub fn author(&self) -> (author: u64)
        ensures
            author == self@.author,
    {
        self.author
    }

    /// The guild the menu binds reactions in.
    pub fn guild(&self) -> (guild: u64)
        ensures
            guild == self@.guild,
    {
        self.guild
    }

    /// The number of roles, which is also how many reactions the menu
    /// listens for at most.
    pub fn role_count(&self) -> (n: usize)
        ensures
            n == self@.roles.len(),
    {
        self.roles.len()
    }

    /// Whether the menu still takes events.
    pub fn is_open(&self) -> (open: bool)
        ensures
            open == !self@.closed,
    {
        !self.closed
    }

    /// The embed for position `pos`: title, description, the inline field
    /// "current role" with the mention of the role at `pos` if there is one,
    /// and `pos/number of roles`.
    pub fn embed(&self, pos: usize) -> (embed: MenuEmbed)
        ensures
            embed.texts() == embed_spec(self@.roles, pos as nat),
    {
        let current_role = if pos < self.roles.len() {
            Some(EmbedField { name: String::from_str("current role"), value: role_mention(self.roles[pos]), inline: true })
        } else {
            None
        };
        let mut footer = String::new();
        push_decimal(&mut footer, pos as u64);
        proof { reveal_strlit("/"); }
        footer.append("/");
        push_decimal(&mut footer, self.roles.len() as u64);
        proof {
            assert(footer@ =~= decimal(pos as nat) + seq!['/'] + decimal(self@.roles.len()));
        }
        MenuEmbed {
            title: String::from_str("Reaction role setup"),
            description: String::from_str("React to the messages with the emojis that should trigger the reaction roles."),
            current_role,
            footer,
        }
    }

    /// The "skip" button.
    pub fn skip_button_factory() -> (b: MenuButton)
        ensures
            b.label@ == "skip"@,
            b.style is Secondary,
            b.custom_id == Self::SKIP_ID,
    {
        MenuButton { label: String::from_str("skip"), style: ButtonStyle::Secondary, custom_id: Self::SKIP_ID }
    }

    /// The "cancel" button.
    pub fn cancel_button_factory() -> (b: MenuButton)
        ensures
            b.label@ == "cancel"@,
            b.style is Danger,
            b.custom_id == Self::CANCEL_ID,
    {
        MenuButton { label: String::from_str("cancel"), style: ButtonStyle::Danger, custom_id: Self::CANCEL_ID }
    }

    /// The menu's first message: "skip" then "cancel" in one row, and the
    /// embed for the first role.
    pub fn create_ui(&self) -> (layout: MenuLayout)
        ensures
            layout.buttons@.len() == 2,
            layout.buttons@[0].label@ == "skip"@,
            layout.buttons@[0].style is Secondary,
            layout.buttons@[0].custom_id == Self::SKIP_ID,
            layout.buttons@[1].label@ == "cancel"@,
            layout.buttons@[1].style is Danger,
            layout.buttons@[1].custom_id == Self::CANCEL_ID,
            layout.embed.texts() == embed_spec(self@.roles, 0),
    {
        let mut buttons: Vec<MenuButton> = Vec::new();
        buttons.push(Self::skip_button_factory());
        buttons.push(Self::cancel_button_factory());
        MenuLayout { buttons, embed: self.embed(0) }
    }

    /// The store command that binds a reaction the author added to the role
    /// the reaction listener is at.
    pub fn process(&self, channel: u64, message: u64, emoji: &ReactionEmoji) -> (cmd: StoreCommand)
        requires
            self@.wf(),
            !self@.closed,
        ensures
            cmd@ == create_spec(self@.guild, channel, message, emoji_data(emoji@), self@.pending_role()),
    {
        create_command(self.guild, channel, message, emoji, self.roles[self.position])
    }

    /// The store accepted the binding: the reaction listener takes the next
    /// position from the shared counter and shows it; the menu is over when
    /// that position is past the last role.
    pub fn stored(&mut self) -> (outcome: StoredOutcome)
        requires
            old(self)@.wf(),
            !old(self)@.closed,
        ensures
            final(self)@ == old(self)@.after_stored(),
            final(self)@.wf(),
            outcome.embed.texts() == embed_spec(old(self)@.roles, old(self)@.state),
            outcome.finished == final(self)@.closed,
            outcome.finished == (old(self)@.state == old(self)@.roles.len()),
    {
        let pos = self.role_assignment_state;
        self.role_assignment_state = pos + 1;
        self.position = pos;
        let finished = pos == self.roles.len();
        self.closed = finished;
        StoredOutcome { embed: self.embed(pos), finished }
    }

    /// A button press with the number `component` as custom id. "cancel"
    /// is acknowledged and ends the menu. "skip" moves the shared counter on;
    /// past the last role it ends the menu without an answer, otherwise it
    /// shows the role it moved to. Any other id changes nothing.
    pub fn ui_event(&mut self, component: i32) -> (outcome: UiOutcome)
        requires
            old(self)@.wf(),
            !old(self)@.closed,
        ensures
            final(self)@.wf(),
            component == Self::CANCEL_ID ==> {
                &&& final(self)@ == old(self)@.after_close()
                &&& outcome.response matches Some(ComponentResponse::DeferredUpdate)
                &&& outcome.finished
            },
            component == Self::SKIP_ID ==> {
                &&& final(self)@ == old(self)@.after_skip()
                &&& outcome.finished == (old(self)@.state == old(self)@.roles.len())
                &&& outcome.finished ==> outcome.response is None
                &&& !outcome.finished ==> (outcome.response matches Some(r)
                    && r.shown_embed() == Some(embed_spec(old(self)@.roles, old(self)@.state)))
            },
            component != Self::CANCEL_ID && component != Self::SKIP_ID ==> {
                &&& final(self)@ == old(self)@
                &&& outcome.response is None
                &&& !outcome.finished
            },
    {
        if component == Self::CANCEL_ID {
            self.closed = true;
            UiOutcome { response: Some(ComponentResponse::DeferredUpdate), finished: true }
        } else if component == Self::SKIP_ID {
            let i = self.role_assignment_state;
            self.role_assignment_state = i + 1;
            if i != self.roles.len() {
                let embed = self.embed(i);
                UiOutcome { response: Some(ComponentResponse::UpdateEmbed(embed)), finished: false }
            } else {
                self.closed = true;
                UiOutcome { response: None, finished: true }
            }
        } else {
            UiOutcome { response: None, finished: false }
        }
    }

    /// No more reactions will come (the limit was reached or the time ran
    /// out): the menu is over.
    pub fn reactions_ended(&mut self)
        requires
            old(self)@.wf(),
        ensures
            final(self)@ == old(self)@.after_close(),
            final(self)@.wf(),
    {
        self.closed = true;
    }
}

/// Why the setup command opens no menu.
pub enum SetupRefusal {
    /// The arguments name no role.
    NoRoles,
    /// The command did not come from a guild.
    NoGuild,
}

/// The setup command: the roles its arguments name (see
/// `roles::parse_setup_roles`), and a menu for them. Without any role there
/// is nothing to do; otherwise, outside a guild, there is nothing to do
/// either.
pub fn setup(author: u64, guild: Option<u64>, args: &Vec<String>) -> (menu: Result<ReactionRoleAssignmentMenu, SetupRefusal>)
    ensures
        ({
            let roles = roles_named(args@.map_values(|a: String| a@));
            &&& (roles.len() == 0 || roles.len() == usize::MAX) ==> (menu matches Err(SetupRefusal::NoRoles))
            &&& (1 <= roles.len() < usize::MAX && guild is None) ==> (menu matches Err(SetupRefusal::NoGuild))
            &&& (1 <= roles.len() < usize::MAX && guild is Some) ==> (menu matches Ok(m)
                && m@ == MenuView::initial(author, guild->0, roles) && m@.wf())
        }),
{
    let roles = parse_setup_roles(args);
    if roles.len() == 0 || roles.len() == usize::MAX {
        return Err(SetupRefusal::NoRoles);
    }
    match guild {
        Some(g) => Ok(ReactionRoleAssignmentMenu::new(author, g, roles)),
        None => Err(SetupRefusal::NoGuild),
    }
}

} // verus!
