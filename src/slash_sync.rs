use vstd::prelude::*;

use crate::args::ParamType;
use crate::models::application_command::{ApplicationCommand, ApplicationCommandOption};
use crate::text::{lemma_least, str_eq};

verus! {

/// The option type number of a parameter type (strings for anything without its own).
pub open spec fn spec_option_type(t: ParamType) -> u32 {
    match t {
        ParamType::String => 3,
        ParamType::Int => 4,
        ParamType::User => 6,
        ParamType::Channel => 7,
        _ => 3,
    }
}

/// The option type number of a parameter type.
pub fn map_param_type_to_u32(param_type: &ParamType) -> (r: u32)
    ensures
        r == spec_option_type(*param_type),
{
    match param_type {
        ParamType::String => 3,
        ParamType::Int => 4,
        ParamType::User => 6,
        ParamType::Channel => 7,
        _ => 3,
    }
}

/// The parts of a slash command option that decide whether a registered command is up to date.
#[derive(Debug, Clone)]
pub struct CommandOption {
    pub name: String,
    pub description: String,
    pub option_type: u32,
    pub required: bool,
    pub autocomplete: bool,
}

pub struct OptionView {
    pub name: Seq<char>,
    pub description: Seq<char>,
    pub option_type: u32,
    pub required: bool,
    pub autocomplete: bool,
}

impl View for CommandOption {
    type V = OptionView;

    open spec fn view(&self) -> OptionView {
        OptionView {
            name: self.name@,
            description: self.description@,
            option_type: self.option_type,
            required: self.required,
            autocomplete: self.autocomplete,
        }
    }
}

pub open spec fn options_view(v: Seq<CommandOption>) -> Seq<OptionView> {
    v.map_values(|o: CommandOption| o@)
}

impl CommandOption {
    /// The option a local parameter declares.
    pub fn from_local(name: &String, description: &String, param_type: &ParamType, required: bool, autocomplete: bool) -> (r: CommandOption)
        ensures
            r@ == (OptionView {
                name: name@,
                description: description@,
                option_type: spec_option_type(*param_type),
                required: required,
                autocomplete: autocomplete,
            }),
    {
        CommandOption {
            name: name.clone(),
            description: description.clone(),
            option_type: map_param_type_to_u32(param_type),
            required,
            autocomplete,
        }
    }

    /// The option as the server has it registered; unset flags are false.
    pub fn from_registered(opt: &ApplicationCommandOption) -> (r: CommandOption)
        ensures
            r@ == (OptionView {
                name: opt.name@,
                description: opt.description@,
                option_type: opt.type_,
                required: opt.required == Some(true),
                autocomplete: opt.autocomplete == Some(true),
            }),
    {
        CommandOption {
            name: opt.name.clone(),
            description: opt.description.clone(),
            option_type: opt.type_,
            required: match opt.required {
                Some(b) => b,
                None => false,
            },
            autocomplete: match opt.autocomplete {
                Some(b) => b,
                None => false,
            },
        }
    }
}

/// A slash command as this client declares it.
#[derive(Debug, Clone)]
pub struct LocalCommand {
    pub name: String,
    pub options: Vec<CommandOption>,
}

/// A slash command as the server has it registered.
#[derive(Debug, Clone)]
pub struct RegisteredCommand {
    pub id: String,
    pub name: String,
    pub options: Vec<CommandOption>,
}

impl RegisteredCommand {
    /// The parts of a fetched command that the comparison needs.
    pub fn from_application_command(c: &ApplicationCommand) -> (r: RegisteredCommand)
        ensures
            r.id@ == c.id@,
            r.name@ == c.name@,
            options_view(r.options@) == match c.options {
                Some(v) => v@.map_values(|o: ApplicationCommandOption| (OptionView {
                    name: o.name@,
                    description: o.description@,
                    option_type: o.type_,
                    required: o.required == Some(true),
                    autocomplete: o.autocomplete == Some(true),
                })),
                None => Seq::<OptionView>::empty(),
            },
    {
        let mut out: Vec<CommandOption> = Vec::new();
        match &c.options {
            Some(v) => {
                let mut i: usize = 0;
                while i < v.len()
                    invariant
                        i <= v@.len(),
                        options_view(out@) == v@.subrange(0, i as int).map_values(|o: ApplicationCommandOption| (OptionView {
                            name: o.name@,
                            description: o.description@,
                            option_type: o.type_,
                            required: o.required == Some(true),
                            autocomplete: o.autocomplete == Some(true),
                        })),
                    decreases v@.len() - i,
                {
                    let ghost prev = options_view(out@);
                    out.push(CommandOption::from_registered(&v[i]));
                    assert(options_view(out@) =~= prev.push(out@[i as int]@));
                    assert(v@.subrange(0, i + 1).drop_last() =~= v@.subrange(0, i as int));
                    i = i + 1;
                }
                assert(v@.subrange(0, v@.len() as int) =~= v@);
            },
            None => {
                assert(options_view(out@) =~= Seq::<OptionView>::empty());
            },
        }
        RegisteredCommand { id: c.id.clone(), name: c.name.clone(), options: out }
    }
}

/// One step that brings the server's slash commands in line with the local ones.
#[derive(Debug, Clone)]
pub enum SyncAction {
    /// Local command `local` is registered as `id` with the same options.
    Keep { local: usize, id: String },
    /// Local command `local` is registered as `id` with other options: update it.
    Update { local: usize, id: String },
    /// Local command `local` is not registered: create it.
    Create { local: usize },
    /// Registered command `id` has no local counterpart: delete it.
    Delete { id: String },
}

pub enum SyncView {
    Keep(int, Seq<char>),
    Update(int, Seq<char>),
    Create(int),
    Delete(Seq<char>),
}

impl View for SyncAction {
    type V = SyncView;

    open spec fn view(&self) -> SyncView {
        match self {
            SyncAction::Keep { local, id } => SyncView::Keep(*local as int, id@),
            SyncAction::Update { local, id } => SyncView::Update(*local as int, id@),
            SyncAction::Create { local } => SyncView::Create(*local as int),
            SyncAction::Delete { id } => SyncView::Delete(id@),
        }
    }
}

pub open spec fn sync_view(v: Seq<SyncAction>) -> Seq<SyncView> {
    v.map_values(|a: SyncAction| a@)
}

/// The first registered command named `name`.
pub open spec fn first_registered(reg: Seq<RegisteredCommand>, name: Seq<char>) -> Option<int> {
    if exists|j: int| 0 <= j < reg.len() && reg[j].name@ == name {
        Some(choose|j: int| 0 <= j < reg.len() && reg[j].name@ == name && forall|k: int| 0 <= k < j ==> reg[k].name@ != name)
    } else {
        None
    }
}

/// What to do for local command `i`: keep or update the first registered command of the
/// same name, depending on whether its options match, or create it.
pub open spec fn local_step(local: Seq<LocalCommand>, reg: Seq<RegisteredCommand>, i: int) -> SyncView {
    match first_registered(reg, local[i].name@) {
        Some(j) => if options_view(local[i].options@) == options_view(reg[j].options@) {
            SyncView::Keep(i, reg[j].id@)
        } else {
            SyncView::Update(i, reg[j].id@)
        },
        None => SyncView::Create(i),
    }
}

pub open spec fn has_local(local: Seq<LocalCommand>, name: Seq<char>) -> bool {
    exists|i: int| 0 <= i < local.len() && local[i].name@ == name
}

/// The registered commands to delete, in order.
pub open spec fn deletions(local: Seq<LocalCommand>, reg: Seq<RegisteredCommand>) -> Seq<SyncView>
    decreases reg.len(),
{
    if reg.len() == 0 {
        seq![]
    } else {
        let rest = deletions(local, reg.drop_last());
        if has_local(local, reg.last().name@) {
            rest
        } else {
            rest.push(SyncView::Delete(reg.last().id@))
        }
    }
}

/// The plan: one step per local command, in order, then the deletions.
pub open spec fn spec_plan(local: Seq<LocalCommand>, reg: Seq<RegisteredCommand>) -> Seq<SyncView> {
    Seq::new(local.len(), |i: int| local_step(local, reg, i)) + deletions(local, reg)
}

fn options_equal(a: &Vec<CommandOption>, b: &Vec<CommandOption>) -> (r: bool)
    ensures
        r == (options_view(a@) == options_view(b@)),
{
    if a.len() != b.len() {
        proof {
            if options_view(a@) == options_view(b@) {
                assert(options_view(a@).len() == options_view(b@).len());
            }
        }
        return false;
    }
    let mut i: usize = 0;
    while i < a.len()
        invariant
            i <= a@.len() == b@.len(),
            forall|k: int| 0 <= k < i ==> a@[k]@ == b@[k]@,
        decreases a@.len() - i,
    {
        let x = &a[i];
        let y = &b[i];
        if !(str_eq(x.name.as_str(), y.name.as_str()) && str_eq(x.description.as_str(), y.description.as_str())
            && x.option_type == y.option_type && x.required == y.required && x.autocomplete == y.autocomplete) {
            proof {
                if options_view(a@) == options_view(b@) {
                    assert(options_view(a@)[i as int] == options_view(b@)[i as int]);
                }
            }
            return false;
        }
        i = i + 1;
    }
    assert(options_view(a@) =~= options_view(b@));
    true
}

fn find_registered(reg: &Vec<RegisteredCommand>, name: &String) -> (r: Option<usize>)
    ensures
        match r {
            Some(j) => first_registered(reg@, name@) == Some(j as int) && j < reg@.len(),
            None => first_registered(reg@, name@) is None,
        },
{
    let mut j: usize = 0;
    while j < reg.len()
        invariant
            j <= reg@.len(),
            forall|k: int| 0 <= k < j ==> reg@[k].name@ != name@,
        decreases reg@.len() - j,
    {
        if str_eq(reg[j].name.as_str(), name.as_str()) {
            proof {
                let s = reg@;
                assert(0 <= j < s.len() && s[j as int].name@ == name@ && forall|k: int| 0 <= k < j ==> s[k].name@ != name@);
                let m = choose|m: int| 0 <= m < s.len() && s[m].name@ == name@ && forall|k: int| 0 <= k < m ==> s[k].name@ != name@;
                if m < j {
                    assert(s[m].name@ != name@);
                } else if j < m {
                    assert(s[j as int].name@ != name@);
                }
            }
            return Some(j);
        }
        j = j + 1;
    }
    None
}

fn find_local(local: &Vec<LocalCommand>, name: &String) -> (r: bool)
    ensures
        r == has_local(local@, name@),
{
    let mut i: usize = 0;
    while i < local.len()
        invariant
            i <= local@.len(),
            forall|k: int| 0 <= k < i ==> local@[k].name@ != name@,
        decreases local@.len() - i,
    {
        if str_eq(local[i].name.as_str(), name.as_str()) {
            return true;
        }
        i = i + 1;
    }
    false
}

/// Plans how to bring the server's slash commands in line with the local ones.
pub fn plan_sync(local: &Vec<LocalCommand>, reg: &Vec<RegisteredCommand>) -> (r: Vec<SyncAction>)
    ensures
        sync_view(r@) == spec_plan(local@, reg@),
{
    let mut out: Vec<SyncAction> = Vec::new();
    let mut i: usize = 0;
    while i < local.len()
        invariant
            i <= local@.len(),
            sync_view(out@) == Seq::new(i as nat, |k: int| local_step(local@, reg@, k)),
        decreases local@.len() - i,
    {
        let step = match find_registered(reg, &local[i].name) {
            Some(j) => {
                if options_equal(&local[i].options, &reg[j].options) {
                    SyncAction::Keep { local: i, id: reg[j].id.clone() }
                } else {
                    SyncAction::Update { local: i, id: reg[j].id.clone() }
                }
            },
            None => SyncAction::Create { local: i },
        };
        let ghost prev = sync_view(out@);
        out.push(step);
        assert(sync_view(out@) =~= prev.push(local_step(local@, reg@, i as int)));
        assert(sync_view(out@) =~= Seq::new((i + 1) as nat, |k: int| local_step(local@, reg@, k)));
        i = i + 1;
    }
    let ghost head = sync_view(out@);
    let mut j: usize = 0;
    while j < reg.len()
        invariant
            j <= reg@.len(),
            head == Seq::new(local@.len(), |k: int| local_step(local@, reg@, k)),
            sync_view(out@) == head + deletions(local@, reg@.subrange(0, j as int)),
        decreases reg@.len() - j,
    {
        assert(reg@.subrange(0, j + 1).drop_last() =~= reg@.subrange(0, j as int));
        if !find_local(local, &reg[j].name) {
            let ghost prev = sync_view(out@);
            out.push(SyncAction::Delete { id: reg[j].id.clone() });
            assert(sync_view(out@) =~= prev.push(SyncView::Delete(reg@[j as int].id@)));
            assert(sync_view(out@) =~= head + deletions(local@, reg@.subrange(0, j + 1)));
        }
        j = j + 1;
    }
    assert(reg@.subrange(0, reg@.len() as int) =~= reg@);
    out
}

/// `first_registered` names the first registered command with the name, and `None` means
/// there is none.
pub proof fn lemma_first_registered_bounds(reg: Seq<RegisteredCommand>, name: Seq<char>)
    ensures
        match first_registered(reg, name) {
            Some(j) => 0 <= j < reg.len() && reg[j].name@ == name && forall|k: int| 0 <= k < j ==> reg[k].name@ != name,
            None => forall|j: int| 0 <= j < reg.len() ==> reg[j].name@ != name,
        },
{
    if exists|j: int| 0 <= j < reg.len() && reg[j].name@ == name {
        let j = choose|j: int| 0 <= j < reg.len() && reg[j].name@ == name;
        let p = |k: int| k < reg.len() && reg[k].name@ == name;
        let m = lemma_least(p, j);
        assert forall|k: int| 0 <= k < m implies reg[k].name@ != name by {
            assert(!p(k));
        }
        assert(0 <= m < reg.len() && reg[m].name@ == name);
    }
}

} // verus!
