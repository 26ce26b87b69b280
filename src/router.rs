use vstd::prelude::*;
use vstd::string::*;

use crate::args::{parse_args, spec_parse_args, ParamType};
use crate::json_access::{elements, json_elements, json_member_str, json_member_text, json_member_u64, member_str, member_text, member_u64};
use crate::consts::{spec_color, Color};
use crate::models::embed::Embed;
use crate::models::embed_builder::EmbedBuilder;
use crate::payload::opt_view;
use crate::text::{chars_of, lemma_least, str_eq, string_of, strings_view};

verus! {

/// A registered message command.
#[derive(Debug, Clone)]
pub struct CommandSpec {
    /// The first token that invokes it, prefix included.
    pub name: String,
    pub params: Vec<ParamType>,
    /// Which parameters may be left out; as long as `params`.
    pub optional: Vec<bool>,
    /// The permission bits the invoking member needs; 0 for none.
    pub permissions: u64,
}

/// A registered slash command.
#[derive(Debug, Clone)]
pub struct SlashSpec {
    /// The id the server assigned to the command.
    pub id: String,
    pub name: String,
    pub params: Vec<ParamType>,
    pub optional: Vec<bool>,
}

/// Information about a message command, for help texts.
#[derive(Debug, Clone)]
pub struct CommandInfo {
    pub name: String,
    pub description: String,
    pub params: Vec<ParamType>,
}

/// Information about a slash command, for help texts.
#[derive(Debug, Clone)]
pub struct SlashCommandInfo {
    pub name: String,
    pub description: String,
    pub params: Vec<(String, ParamType)>,
}

/// What handlers exist, fixed before connecting: event tags with a handler, message
/// commands, slash commands, and component custom ids.
#[derive(Debug, Clone)]
pub struct Registry {
    pub events: Vec<String>,
    pub commands: Vec<CommandSpec>,
    pub slash_commands: Vec<SlashSpec>,
    pub components: Vec<String>,
}

impl Registry {
    /// Every command declares, per parameter, whether it may be left out.
    pub open spec fn well_formed(&self) -> bool {
        &&& forall|i: int| 0 <= i < self.commands@.len() ==> #[trigger] self.commands@[i].params@.len()
            == self.commands@[i].optional@.len()
        &&& forall|i: int| 0 <= i < self.slash_commands@.len() ==> #[trigger] self.slash_commands@[i].params@.len()
            == self.slash_commands@[i].optional@.len()
    }

    /// Checks `well_formed`, which reading a command's arguments needs.
    pub fn check(&self) -> (r: bool)
        ensures
            r == self.well_formed(),
    {
        let mut i: usize = 0;
        while i < self.commands.len()
            invariant
                i <= self.commands@.len(),
                forall|k: int| 0 <= k < i ==> #[trigger] self.commands@[k].params@.len() == self.commands@[k].optional@.len(),
            decreases self.commands@.len() - i,
        {
            if self.commands[i].params.len() != self.commands[i].optional.len() {
                return false;
            }
            i = i + 1;
        }
        let mut j: usize = 0;
        while j < self.slash_commands.len()
            invariant
                j <= self.slash_commands@.len(),
                forall|k: int| 0 <= k < self.commands@.len() ==> #[trigger] self.commands@[k].params@.len() == self.commands@[k].optional@.len(),
                forall|k: int| 0 <= k < j ==> #[trigger] self.slash_commands@[k].params@.len() == self.slash_commands@[k].optional@.len(),
            decreases self.slash_commands@.len() - j,
        {
            if self.slash_commands[j].params.len() != self.slash_commands[j].optional.len() {
                return false;
            }
            j = j + 1;
        }
        true
    }
}

/// The help lines of message commands: one per command, each on a new line.
pub open spec fn command_lines(cs: Seq<CommandInfo>) -> Seq<char>
    decreases cs.len(),
{
    if cs.len() == 0 {
        seq![]
    } else {
        command_lines(cs.drop_last()) + "\n`"@ + cs.last().name@ + "` - "@ + cs.last().description@
    }
}

/// The help lines of slash commands, each ending its line.
pub open spec fn slash_lines(cs: Seq<SlashCommandInfo>) -> Seq<char>
    decreases cs.len(),
{
    if cs.len() == 0 {
        seq![]
    } else {
        slash_lines(cs.drop_last()) + "`/"@ + cs.last().name@ + "` - "@ + cs.last().description@ + "\n"@
    }
}

/// The message-command part of the help text: the help command itself, then each command.
pub open spec fn spec_commands_help(prefix: Seq<char>, cs: Seq<CommandInfo>) -> Seq<char> {
    "`"@ + prefix + "help` - Sends this help message"@ + command_lines(cs)
}

/// The help embed: a green embed titled "Help has arrived!" with a field listing the
/// message commands and one listing the slash commands, in the order given.
pub fn help_embed(prefix: &str, commands: &Vec<CommandInfo>, slash_commands: &Vec<SlashCommandInfo>) -> (r: Embed)
    ensures
        opt_view(r.title) == Some("Help has arrived!"@),
        r.color == Some(spec_color(Color::Green)),
        r.fields@.len() == 2,
        r.fields@[0].name@ == "Message Commands"@,
        r.fields@[0].value@ == spec_commands_help(prefix@, commands@),
        !r.fields@[0].inline,
        r.fields@[1].name@ == "Slash Commands"@,
        r.fields@[1].value@ == slash_lines(slash_commands@),
        !r.fields@[1].inline,
{
    let mut text = String::from_str("`");
    text.append(prefix);
    text.append("help` - Sends this help message");
    let ghost head = text@;
    let mut i: usize = 0;
    while i < commands.len()
        invariant
            i <= commands@.len(),
            text@ == head + command_lines(commands@.subrange(0, i as int)),
        decreases commands@.len() - i,
    {
        assert(commands@.subrange(0, i + 1).drop_last() =~= commands@.subrange(0, i as int));
        text.append("\n`");
        text.append(commands[i].name.as_str());
        text.append("` - ");
        text.append(commands[i].description.as_str());
        assert(text@ =~= head + command_lines(commands@.subrange(0, i + 1)));
        i = i + 1;
    }
    assert(commands@.subrange(0, commands@.len() as int) =~= commands@);
    let mut slash = String::new();
    let mut j: usize = 0;
    while j < slash_commands.len()
        invariant
            j <= slash_commands@.len(),
            slash@ == slash_lines(slash_commands@.subrange(0, j as int)),
        decreases slash_commands@.len() - j,
    {
        assert(slash_commands@.subrange(0, j + 1).drop_last() =~= slash_commands@.subrange(0, j as int));
        slash.append("`/");
        slash.append(slash_commands[j].name.as_str());
        slash.append("` - ");
        slash.append(slash_commands[j].description.as_str());
        slash.append("\n");
        assert(slash@ =~= slash_lines(slash_commands@.subrange(0, j + 1)));
        j = j + 1;
    }
    assert(slash_commands@.subrange(0, slash_commands@.len() as int) =~= slash_commands@);
    let b = EmbedBuilder::new().color(Color::Green).title("Help has arrived!");
    let b = b.field("Message Commands", text.as_str(), false);
    let b = b.field("Slash Commands", slash.as_str(), false);
    b.build()
}

/// Where an event goes.
#[derive(Debug, Clone)]
pub enum Route {
    /// No handler: log and drop.
    Ignore,
    /// The plain handler registered for the event's tag.
    Event,
    /// Message command `index`, with the message's arguments (the first is the command).
    Command { index: usize, tokens: Vec<String>, channel_id: String, message_id: String },
    /// Slash command `index`, with the values of the options given.
    SlashCommand { index: usize, values: Vec<String> },
    /// Component handler `index`.
    Component { index: usize },
    /// Autocompletion for option `option` of slash command `index`, whose text so far is `value`.
    Autocomplete { index: usize, option: usize, value: String },
}

pub enum RouteView {
    Ignore,
    Event,
    Command(int, Seq<Seq<char>>, Seq<char>, Seq<char>),
    SlashCommand(int, Seq<Seq<char>>),
    Component(int),
    Autocomplete(int, int, Seq<char>),
}

impl View for Route {
    type V = RouteView;

    open spec fn view(&self) -> RouteView {
        match self {
            Route::Ignore => RouteView::Ignore,
            Route::Event => RouteView::Event,
            Route::Command { index, tokens, channel_id, message_id } => RouteView::Command(
                *index as int,
                strings_view(tokens@),
                channel_id@,
                message_id@,
            ),
            Route::SlashCommand { index, values } => RouteView::SlashCommand(*index as int, strings_view(values@)),
            Route::Component { index } => RouteView::Component(*index as int),
            Route::Autocomplete { index, option, value } => RouteView::Autocomplete(*index as int, *option as int, value@),
        }
    }
}

/// The first position where `names` holds `key`.
pub open spec fn first_index(names: Seq<Seq<char>>, key: Seq<char>) -> Option<int> {
    if exists|i: int| 0 <= i < names.len() && names[i] == key {
        Some(choose|i: int| 0 <= i < names.len() && names[i] == key && forall|j: int| 0 <= j < i ==> names[j] != key)
    } else {
        None
    }
}

pub open spec fn command_names(v: Seq<CommandSpec>) -> Seq<Seq<char>> {
    v.map_values(|c: CommandSpec| c.name@)
}

pub open spec fn slash_ids(v: Seq<SlashSpec>) -> Seq<Seq<char>> {
    v.map_values(|c: SlashSpec| c.id@)
}

/// The text up to the first space.
pub open spec fn first_word(s: Seq<char>) -> Seq<char> {
    if exists|i: int| 0 <= i < s.len() && s[i] == ' ' {
        let i = choose|i: int| 0 <= i < s.len() && s[i] == ' ' && forall|j: int| 0 <= j < i ==> s[j] != ' ';
        s.subrange(0, i)
    } else {
        s
    }
}

/// The value an interaction option carries, as text.
pub open spec fn option_value(opt: Seq<char>) -> Seq<char> {
    match json_member_str(opt, "value"@) {
        Some(s) => s,
        None => match json_member_text(opt, "value"@) {
            Some(t) => t,
            None => seq![],
        },
    }
}

pub open spec fn is_focused(opt: Seq<char>) -> bool {
    json_member_text(opt, "focused"@) == Some("true"@)
}

/// The options of an interaction's data; none when absent.
pub open spec fn options_of(data: Seq<char>) -> Seq<Seq<char>> {
    match json_member_text(data, "options"@) {
        Some(o) => match json_elements(o) {
            Some(v) => v,
            None => seq![],
        },
        None => seq![],
    }
}

/// The first focused option.
pub open spec fn first_focused(opts: Seq<Seq<char>>) -> Option<int> {
    if exists|i: int| 0 <= i < opts.len() && is_focused(opts[i]) {
        Some(choose|i: int| 0 <= i < opts.len() && is_focused(opts[i]) && forall|j: int| 0 <= j < i ==> !is_focused(opts[j]))
    } else {
        None
    }
}

/// A plain event: to its handler when one is registered.
pub open spec fn spec_fallback(reg: Registry, tag: Seq<char>) -> RouteView {
    if strings_view(reg.events@).contains(tag) { RouteView::Event } else { RouteView::Ignore }
}

/// A new message: a command when its first word names one, else a plain event.
pub open spec fn spec_route_message(reg: Registry, tag: Seq<char>, body: Seq<char>) -> RouteView {
    let content = match json_member_str(body, "content"@) { Some(c) => c, None => seq![] };
    match first_index(command_names(reg.commands@), first_word(content)) {
        Some(i) => RouteView::Command(
            i,
            spec_parse_args(content),
            match json_member_str(body, "channel_id"@) { Some(c) => c, None => seq![] },
            match json_member_str(body, "id"@) { Some(c) => c, None => seq![] },
        ),
        None => spec_fallback(reg, tag),
    }
}

/// An interaction: by its type, to the slash command with its id, to the component
/// handler with its custom id, or to autocompletion of its focused option.
pub open spec fn spec_route_interaction(reg: Registry, tag: Seq<char>, body: Seq<char>) -> RouteView {
    let data = match json_member_text(body, "data"@) { Some(d) => d, None => seq![] };
    let kind = json_member_u64(body, "type"@);
    let opts = options_of(data);
    if kind == Some(2u64) || kind == Some(4u64) {
        let found = match json_member_str(data, "id"@) {
            Some(id) => first_index(slash_ids(reg.slash_commands@), id),
            None => None,
        };
        match found {
            Some(i) => if kind == Some(2u64) {
                RouteView::SlashCommand(i, opts.map_values(|o: Seq<char>| option_value(o)))
            } else {
                match first_focused(opts) {
                    Some(k) => RouteView::Autocomplete(i, k, option_value(opts[k])),
                    None => RouteView::Ignore,
                }
            },
            None => if kind == Some(2u64) { spec_fallback(reg, tag) } else { RouteView::Ignore },
        }
    } else if kind == Some(3u64) {
        let found = match json_member_str(data, "custom_id"@) {
            Some(id) => first_index(strings_view(reg.components@), id),
            None => None,
        };
        match found {
            Some(i) => RouteView::Component(i),
            None => spec_fallback(reg, tag),
        }
    } else {
        spec_fallback(reg, tag)
    }
}

/// Where a dispatched event with `tag` and JSON `body` goes.
pub open spec fn spec_route(reg: Registry, tag: Seq<char>, body: Seq<char>) -> RouteView {
    if tag == "MESSAGE_CREATE"@ {
        spec_route_message(reg, tag, body)
    } else if tag == "INTERACTION_CREATE"@ {
        spec_route_interaction(reg, tag, body)
    } else {
        spec_fallback(reg, tag)
    }
}

fn find_in(names: &Vec<String>, key: &str) -> (r: Option<usize>)
    ensures
        match r {
            Some(i) => first_index(strings_view(names@), key@) == Some(i as int) && i < names@.len()
                && names@[i as int]@ == key@,
            None => first_index(strings_view(names@), key@) is None && forall|j: int|
                0 <= j < names@.len() ==> names@[j]@ != key@,
        },
{
    let ghost ns = strings_view(names@);
    let mut i: usize = 0;
    while i < names.len()
        invariant
            i <= names@.len(),
            ns == strings_view(names@),
            forall|j: int| 0 <= j < i ==> ns[j] != key@,
            forall|j: int| 0 <= j < i ==> names@[j]@ != key@,
        decreases names@.len() - i,
    {
        if str_eq(names[i].as_str(), key) {
            assert(ns[i as int] == key@);
            proof { lemma_first_index(ns, key@, i as int); }
            return Some(i);
        }
        i = i + 1;
    }
    None
}

proof fn lemma_first_index(ns: Seq<Seq<char>>, key: Seq<char>, i: int)
    requires
        0 <= i < ns.len(),
        ns[i] == key,
        forall|j: int| 0 <= j < i ==> ns[j] != key,
    ensures
        first_index(ns, key) == Some(i),
{
    assert(0 <= i < ns.len() && ns[i] == key && forall|j: int| 0 <= j < i ==> ns[j] != key);
    let k = choose|k: int| 0 <= k < ns.len() && ns[k] == key && forall|j: int| 0 <= j < k ==> ns[j] != key;
    if k < i {
        assert(ns[k] != key);
    } else if i < k {
        assert(ns[i] != key);
    }
}

proof fn lemma_first_focused(opts: Seq<Seq<char>>, k: int)
    requires
        0 <= k < opts.len(),
        is_focused(opts[k]),
        forall|j: int| 0 <= j < k ==> !is_focused(opts[j]),
    ensures
        first_focused(opts) == Some(k),
{
    assert(0 <= k < opts.len() && is_focused(opts[k]) && forall|j: int| 0 <= j < k ==> !is_focused(opts[j]));
    let m = choose|m: int| 0 <= m < opts.len() && is_focused(opts[m]) && forall|j: int| 0 <= j < m ==> !is_focused(opts[j]);
    if m < k {
        assert(!is_focused(opts[m]));
    } else if k < m {
        assert(!is_focused(opts[k]));
    }
}

fn command_index(cmds: &Vec<CommandSpec>, key: &str) -> (r: Option<usize>)
    ensures
        match r {
            Some(i) => first_index(command_names(cmds@), key@) == Some(i as int),
            None => first_index(command_names(cmds@), key@) is None,
        },
{
    let ghost ns = command_names(cmds@);
    let mut i: usize = 0;
    while i < cmds.len()
        invariant
            i <= cmds@.len(),
            ns == command_names(cmds@),
            forall|j: int| 0 <= j < i ==> ns[j] != key@,
        decreases cmds@.len() - i,
    {
        if str_eq(cmds[i].name.as_str(), key) {
            proof { lemma_first_index(ns, key@, i as int); }
            return Some(i);
        }
        i = i + 1;
    }
    None
}

fn slash_index(cmds: &Vec<SlashSpec>, key: &str) -> (r: Option<usize>)
    ensures
        match r {
            Some(i) => first_index(slash_ids(cmds@), key@) == Some(i as int),
            None => first_index(slash_ids(cmds@), key@) is None,
        },
{
    let ghost ns = slash_ids(cmds@);
    let mut i: usize = 0;
    while i < cmds.len()
        invariant
            i <= cmds@.len(),
            ns == slash_ids(cmds@),
            forall|j: int| 0 <= j < i ==> ns[j] != key@,
        decreases cmds@.len() - i,
    {
        if str_eq(cmds[i].id.as_str(), key) {
            proof { lemma_first_index(ns, key@, i as int); }
            return Some(i);
        }
        i = i + 1;
    }
    None
}

/// The text of `content` up to its first space.
pub fn first_word_of(content: &str) -> (r: String)
    ensures
        r@ == first_word(content@),
{
    let v = chars_of(content);
    let mut i: usize = 0;
    while i < v.len()
        invariant
            i <= v@.len(),
            v@ == content@,
            forall|j: int| 0 <= j < i ==> v@[j] != ' ',
        decreases v@.len() - i,
    {
        if v[i] == ' ' {
            proof {
                let s = content@;
                let k = choose|k: int| 0 <= k < s.len() && s[k] == ' ' && forall|j: int| 0 <= j < k ==> s[j] != ' ';
                assert(0 <= k < s.len() && s[k] == ' ' && forall|j: int| 0 <= j < k ==> s[j] != ' ');
                if k < i {
                    assert(s[k] != ' ');
                } else if i < k {
                    assert(s[i as int] != ' ');
                }
            }
            return string_of(&v, 0, i);
        }
        i = i + 1;
    }
    assert(v@.subrange(0, v@.len() as int) =~= v@);
    string_of(&v, 0, v.len())
}

fn str_or_empty(o: Option<String>) -> (r: String)
    ensures
        r@ == match o { Some(s) => s@, None => Seq::<char>::empty() },
{
    match o {
        Some(s) => s,
        None => String::new(),
    }
}

fn fallback(reg: &Registry, tag: &str) -> (r: Route)
    ensures
        r@ == spec_fallback(*reg, tag@),
{
    match find_in(&reg.events, tag) {
        Some(i) => {
            assert(strings_view(reg.events@)[i as int] == tag@);
            assert(strings_view(reg.events@).contains(tag@));
            Route::Event
        },
        None => {
            assert(!strings_view(reg.events@).contains(tag@));
            Route::Ignore
        },
    }
}

fn route_message(reg: &Registry, tag: &str, body: &str) -> (r: Route)
    ensures
        r@ == spec_route_message(*reg, tag@, body@),
{
    proof {
        reveal_strlit("content");
        reveal_strlit("channel_id");
        reveal_strlit("id");
    }
    let content = str_or_empty(member_str(body, "content"));
    let word = first_word_of(content.as_str());
    match command_index(&reg.commands, word.as_str()) {
        Some(index) => {
            let tokens = parse_args(content.as_str());
            let channel_id = str_or_empty(member_str(body, "channel_id"));
            let message_id = str_or_empty(member_str(body, "id"));
            Route::Command { index, tokens, channel_id, message_id }
        },
        None => fallback(reg, tag),
    }
}

fn option_value_of(opt: &str) -> (r: String)
    ensures
        r@ == option_value(opt@),
{
    proof { reveal_strlit("value"); }
    match member_str(opt, "value") {
        Some(s) => s,
        None => str_or_empty(member_text(opt, "value")),
    }
}

fn is_focused_exec(opt: &str) -> (r: bool)
    ensures
        r == is_focused(opt@),
{
    proof { reveal_strlit("focused"); }
    match member_text(opt, "focused") {
        Some(t) => str_eq(t.as_str(), "true"),
        None => false,
    }
}

fn options_exec(data: &str) -> (r: Vec<String>)
    ensures
        strings_view(r@) == options_of(data@),
{
    proof { reveal_strlit("options"); }
    match member_text(data, "options") {
        Some(o) => match elements(o.as_str()) {
            Some(v) => v,
            None => {
                let v: Vec<String> = Vec::new();
                assert(strings_view(v@) =~= seq![]);
                v
            },
        },
        None => {
            let v: Vec<String> = Vec::new();
            assert(strings_view(v@) =~= seq![]);
            v
        },
    }
}

#[verifier::loop_isolation(false)]
fn route_interaction(reg: &Registry, tag: &str, body: &str) -> (r: Route)
    ensures
        r@ == spec_route_interaction(*reg, tag@, body@),
{
    proof {
        reveal_strlit("data");
        reveal_strlit("type");
        reveal_strlit("id");
        reveal_strlit("custom_id");
    }
    let data = str_or_empty(member_text(body, "data"));
    let kind = member_u64(body, "type");
    let opts = options_exec(data.as_str());
    let ghost ov = strings_view(opts@);
    if kind == Some(2u64) || kind == Some(4u64) {
        let found = match member_str(data.as_str(), "id") {
            Some(id) => slash_index(&reg.slash_commands, id.as_str()),
            None => None,
        };
        match found {
            Some(index) => {
                if kind == Some(2u64) {
                    let mut values: Vec<String> = Vec::new();
                    let mut k: usize = 0;
                    while k < opts.len()
                        invariant
                            k <= opts@.len(),
                            ov == strings_view(opts@),
                            strings_view(values@) == ov.subrange(0, k as int).map_values(|o: Seq<char>| option_value(o)),
                        decreases opts@.len() - k,
                    {
                        let ghost prev = strings_view(values@);
                        values.push(option_value_of(opts[k].as_str()));
                        assert(strings_view(values@) =~= prev.push(option_value(ov[k as int])));
                        assert(ov.subrange(0, k + 1).map_values(|o: Seq<char>| option_value(o)) =~= ov.subrange(0, k as int).map_values(|o: Seq<char>| option_value(o)).push(option_value(ov[k as int])));
                        k = k + 1;
                    }
                    assert(ov.subrange(0, ov.len() as int) =~= ov);
                    Route::SlashCommand { index, values }
                } else {
                    let mut k: usize = 0;
                    while k < opts.len()
                        invariant
                            k <= opts@.len(),
                            ov == strings_view(opts@),
                            forall|j: int| 0 <= j < k ==> !is_focused(ov[j]),
                            ov == options_of(data@),
                        decreases opts@.len() - k,
                    {
                        if is_focused_exec(opts[k].as_str()) {
                            assert(ov[k as int] == opts@[k as int]@);
                            proof { lemma_first_focused(ov, k as int); }
                            let value = option_value_of(opts[k].as_str());
                            assert(ov[k as int] == opts@[k as int]@);
                            assert(first_focused(options_of(data@)) == Some(k as int));
                            return Route::Autocomplete { index, option: k, value };
                        }
                        k = k + 1;
                    }
                    Route::Ignore
                }
            },
            None => {
                if kind == Some(2u64) {
                    fallback(reg, tag)
                } else {
                    Route::Ignore
                }
            },
        }
    } else if kind == Some(3u64) {
        let found = match member_str(data.as_str(), "custom_id") {
            Some(id) => find_in(&reg.components, id.as_str()),
            None => None,
        };
        match found {
            Some(index) => Route::Component { index },
            None => fallback(reg, tag),
        }
    } else {
        fallback(reg, tag)
    }
}

/// Decides where a dispatched event goes.
pub fn route(reg: &Registry, tag: &str, body: &str) -> (r: Route)
    ensures
        r@ == spec_route(*reg, tag@, body@),
{
    if str_eq(tag, "MESSAGE_CREATE") {
        route_message(reg, tag, body)
    } else if str_eq(tag, "INTERACTION_CREATE") {
        route_interaction(reg, tag, body)
    } else {
        fallback(reg, tag)
    }
}

/// Whether a member holding `have` may run a command that needs `required`.
pub fn permitted(have: u64, required: u64) -> (r: bool)
    ensures
        r == (have & required == required),
{
    have & required == required
}

/// The reply to a member who lacks a command's permissions.
pub fn missing_permissions_message() -> (r: String)
    ensures
        r@ == "You are missing the required permissions for running this command"@,
{
    String::from_str("You are missing the required permissions for running this command")
}

/// What a handler is given besides its event: the credentials for REST calls.
pub struct Context {
    token: String,
}

impl Context {
    /// A context that authenticates with `token`.
    pub fn new(token: String) -> (r: Context)
        ensures
            r.token() == token,
    {
        Context { token }
    }

    pub closed spec fn token(&self) -> String {
        self.token
    }

    /// The bot token REST calls carry.
    pub fn token_str(&self) -> (r: &str)
        ensures
            r@ == self.token()@,
    {
        self.token.as_str()
    }
}

/// `first_index` names the first position that holds the key, and `None` means no
/// position holds it.
pub proof fn lemma_first_index_bounds(names: Seq<Seq<char>>, key: Seq<char>)
    ensures
        match first_index(names, key) {
            Some(i) => 0 <= i < names.len() && names[i] == key && forall|j: int| 0 <= j < i ==> names[j] != key,
            None => forall|i: int| 0 <= i < names.len() ==> names[i] != key,
        },
{
    if exists|i: int| 0 <= i < names.len() && names[i] == key {
        let i = choose|i: int| 0 <= i < names.len() && names[i] == key;
        let p = |k: int| k < names.len() && names[k] == key;
        let m = lemma_least(p, i);
        assert forall|j: int| 0 <= j < m implies names[j] != key by {
            assert(!p(j));
        }
        assert(0 <= m < names.len() && names[m] == key);
    }
}

/// `first_focused` names the first focused option, and `None` means none is focused.
pub proof fn lemma_first_focused_bounds(opts: Seq<Seq<char>>)
    ensures
        match first_focused(opts) {
            Some(i) => 0 <= i < opts.len() && is_focused(opts[i]) && forall|j: int| 0 <= j < i ==> !is_focused(opts[j]),
            None => forall|i: int| 0 <= i < opts.len() ==> !is_focused(opts[i]),
        },
{
    if exists|i: int| 0 <= i < opts.len() && is_focused(opts[i]) {
        let i = choose|i: int| 0 <= i < opts.len() && is_focused(opts[i]);
        let p = |k: int| k < opts.len() && is_focused(opts[k]);
        let m = lemma_least(p, i);
        assert forall|j: int| 0 <= j < m implies !is_focused(opts[j]) by {
            assert(!p(j));
        }
        assert(0 <= m < opts.len() && is_focused(opts[m]));
    }
}

/// `first_word` is the text before the first space, or all of it when there is none.
pub proof fn lemma_first_word_bounds(s: Seq<char>)
    ensures
        first_word(s).len() <= s.len(),
        forall|j: int| 0 <= j < first_word(s).len() ==> #[trigger] first_word(s)[j] == s[j] && s[j] != ' ',
        first_word(s).len() < s.len() ==> s[first_word(s).len() as int] == ' ',
{
    if exists|i: int| 0 <= i < s.len() && s[i] == ' ' {
        let i = choose|i: int| 0 <= i < s.len() && s[i] == ' ';
        let p = |k: int| k < s.len() && s[k] == ' ';
        let w = lemma_least(p, i);
        assert forall|j: int| 0 <= j < w implies s[j] != ' ' by {
            assert(!p(j));
        }
        assert(0 <= w < s.len() && s[w] == ' ');
        let m = choose|m: int| 0 <= m < s.len() && s[m] == ' ' && forall|j: int| 0 <= j < m ==> s[j] != ' ';
        assert(first_word(s) == s.subrange(0, m));
    } else {
        assert(s.subrange(0, s.len() as int) =~= s);
        assert(first_word(s) == s.subrange(0, s.len() as int));
    }
}

} // verus!
