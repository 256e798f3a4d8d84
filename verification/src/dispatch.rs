use vstd::prelude::*;
use crate::text::after_token;
use crate::text::bytes_eq;
use crate::text::copy_range;
use crate::text::has_prefix;
use crate::text::is_prefix_of;
use crate::text::push_all;
use crate::text::scan_spaces;
use crate::text::scan_token;
use crate::text::skip_spaces;
use crate::text::spec_digits;
use crate::text::token_of;
use crate::text::u64_to_digits;

verus! {

/// One command of the dispatch table: its primary name, further names it
/// answers to, and the description the help listing shows.
pub struct CommandEntry {
    pub name: Vec<u8>,
    pub aliases: Vec<Vec<u8>>,
    pub description: Vec<u8>,
}

/// A named, ordered collection of commands.
pub struct CommandGroup {
    pub name: Vec<u8>,
    pub commands: Vec<CommandEntry>,
}

/// The command dispatch table: an ordered collection of groups, built once
/// at bootstrap and immutable afterwards. The help command is synthesized
/// from it rather than registered in it.
pub struct CommandTable {
    pub groups: Vec<CommandGroup>,
}

impl CommandEntry {
    /// A command with no aliases yet.
    pub fn new(name: Vec<u8>, description: Vec<u8>) -> (e: CommandEntry)
        ensures
            e.name == name,
            e.description == description,
            e.aliases@.len() == 0,
    {
        CommandEntry { name, aliases: Vec::new(), description }
    }

    /// Registers one further name for the command.
    pub fn add_alias(&mut self, alias: Vec<u8>)
        ensures
            final(self).name == old(self).name,
            final(self).description == old(self).description,
            final(self).aliases@ == old(self).aliases@.push(alias),
    {
        self.aliases.push(alias);
    }
}

impl CommandGroup {
    /// An empty group.
    pub fn new(name: Vec<u8>) -> (g: CommandGroup)
        ensures
            g.name == name,
            g.commands@.len() == 0,
    {
        CommandGroup { name, commands: Vec::new() }
    }

    /// Registers one command at the end of the group.
    pub fn add_command(&mut self, e: CommandEntry)
        ensures
            final(self).name == old(self).name,
            final(self).commands@ == old(self).commands@.push(e),
    {
        self.commands.push(e);
    }
}

impl CommandTable {
    /// An empty table.
    pub fn new() -> (t: CommandTable)
        ensures
            t.groups@.len() == 0,
    {
        CommandTable { groups: Vec::new() }
    }

    /// Registers one group at the end of the table.
    pub fn add_group(&mut self, g: CommandGroup)
        ensures
            final(self).groups@ == old(self).groups@.push(g),
    {
        self.groups.push(g);
    }
}

/// The name of the synthesized help command.
pub open spec fn help_name() -> Seq<u8> {
    seq![104u8, 101u8, 108u8, 112u8]
}

/// The direct mention of the bot: `<@` then its identifier then `>`.
pub open spec fn mention_bytes(id: u64) -> Seq<u8> {
    seq![60u8, 64u8] + spec_digits(id as nat) + seq![62u8]
}

/// The nickname form of the mention: `<@!` then the identifier then `>`.
pub open spec fn nick_mention_bytes(id: u64) -> Seq<u8> {
    seq![60u8, 64u8, 33u8] + spec_digits(id as nat) + seq![62u8]
}

/// Renders the mention of `id`, in the nickname form when `nick` is set.
pub fn render_mention(id: u64, nick: bool) -> (r: Vec<u8>)
    ensures
        r@ == if nick {
            nick_mention_bytes(id)
        } else {
            mention_bytes(id)
        },
{
    let mut r: Vec<u8> = Vec::new();
    r.push(60);
    r.push(64);
    if nick {
        r.push(33);
    }
    let ghost head = r@;
    let digits = u64_to_digits(id);
    push_all(&mut r, &digits);
    r.push(62);
    proof {
        if nick {
            assert(head =~= seq![60u8, 64u8, 33u8]);
            assert(r@ =~= nick_mention_bytes(id));
        } else {
            assert(head =~= seq![60u8, 64u8]);
            assert(r@ =~= mention_bytes(id));
        }
    }
    r
}

/// Whether `e` answers to the name `n`, by its primary name or an alias.
pub open spec fn entry_matches(e: CommandEntry, n: Seq<u8>) -> bool {
    e.name@ == n || exists|k: int| 0 <= k < e.aliases@.len() && #[trigger] e.aliases@[k]@ == n
}

/// Whether some command of `g` answers to `n`.
pub open spec fn group_has_match(g: CommandGroup, n: Seq<u8>) -> bool {
    exists|i: int| 0 <= i < g.commands@.len() && #[trigger] entry_matches(g.commands@[i], n)
}

/// Whether some command of `t` answers to `n`.
pub open spec fn table_has_match(t: CommandTable, n: Seq<u8>) -> bool {
    exists|gi: int| 0 <= gi < t.groups@.len() && #[trigger] group_has_match(t.groups@[gi], n)
}

/// The command at `(gi, ci)` answers to `n` and no command before it, in
/// group-major order, does.
pub open spec fn is_first_match(t: CommandTable, n: Seq<u8>, gi: int, ci: int) -> bool {
    &&& 0 <= gi < t.groups@.len()
    &&& 0 <= ci < t.groups@[gi].commands@.len()
    &&& entry_matches(t.groups@[gi].commands@[ci], n)
    &&& forall|g2: int| 0 <= g2 < gi ==> !#[trigger] group_has_match(t.groups@[g2], n)
    &&& forall|c2: int| 0 <= c2 < ci ==> !#[trigger] entry_matches(t.groups@[gi].commands@[c2], n)
}

/// Whether `e` answers to the name `n`.
pub fn entry_is_match(e: &CommandEntry, n: &Vec<u8>) -> (r: bool)
    ensures
        r == entry_matches(*e, n@),
{
    if bytes_eq(&e.name, n) {
        return true;
    }
    let mut k: usize = 0;
    while k < e.aliases.len()
        invariant
            k <= e.aliases@.len(),
            forall|j: int| 0 <= j < k ==> e.aliases@[j]@ != n@,
        decreases e.aliases@.len() - k,
    {
        if bytes_eq(&e.aliases[k], n) {
            return true;
        }
        k = k + 1;
    }
    false
}

/// Finds the first command of `t`, in group-major order, that answers to
/// `n`; reports that none does otherwise.
pub fn find_command(t: &CommandTable, n: &Vec<u8>) -> (r: Option<(usize, usize)>)
    ensures
        r matches Some(p) ==> is_first_match(*t, n@, p.0 as int, p.1 as int),
        r is None ==> !table_has_match(*t, n@),
        r is Some <==> table_has_match(*t, n@),
{
    let mut gi: usize = 0;
    while gi < t.groups.len()
        invariant
            gi <= t.groups@.len(),
            forall|g2: int| 0 <= g2 < gi ==> !#[trigger] group_has_match(t.groups@[g2], n@),
        decreases t.groups@.len() - gi,
    {
        let mut ci: usize = 0;
        while ci < t.groups[gi].commands.len()
            invariant
                gi < t.groups@.len(),
                ci <= t.groups@[gi as int].commands@.len(),
                forall|g2: int| 0 <= g2 < gi ==> !#[trigger] group_has_match(t.groups@[g2], n@),
                forall|c2: int|
                    0 <= c2 < ci ==> !#[trigger] entry_matches(
                        t.groups@[gi as int].commands@[c2],
                        n@,
                    ),
            decreases t.groups@[gi as int].commands@.len() - ci,
        {
            if entry_is_match(&t.groups[gi].commands[ci], n) {
                proof {
                    assert(group_has_match(t.groups@[gi as int], n@));
                }
                return Some((gi, ci));
            }
            ci = ci + 1;
        }
        proof {
            assert(!group_has_match(t.groups@[gi as int], n@));
        }
        gi = gi + 1;
    }
    None
}

/// How an inbound message relates to the dispatch table.
pub enum CommandMatch {
    /// No prefix or mention, or nothing behind it: the text is ignored.
    NotACommand,
    /// A command invocation whose name no table entry answers to; ignored.
    Unknown { name: Vec<u8> },
    /// An invocation of the synthesized help command.
    Help { args: Vec<u8> },
    /// An invocation of the command at `(group, index)` of the table.
    Command { group: usize, index: usize, args: Vec<u8> },
}

/// The text behind the command marker of `content`: behind the configured
/// prefix where it stands first, else behind a direct mention of the bot in
/// either form. A message with no marker is no command.
pub open spec fn spec_strip(content: Seq<u8>, prefix: Seq<u8>, bot_id: u64) -> Option<Seq<u8>> {
    if is_prefix_of(prefix, content) {
        Some(content.skip(prefix.len() as int))
    } else if is_prefix_of(mention_bytes(bot_id), content) {
        Some(content.skip(mention_bytes(bot_id).len() as int))
    } else if is_prefix_of(nick_mention_bytes(bot_id), content) {
        Some(content.skip(nick_mention_bytes(bot_id).len() as int))
    } else {
        None
    }
}

/// The command name and its argument text, if `content` invokes a command:
/// the text behind the marker, with spaces around the first word dropped.
/// An empty invocation is no command.
pub open spec fn spec_invocation(content: Seq<u8>, prefix: Seq<u8>, bot_id: u64) -> Option<
    (Seq<u8>, Seq<u8>),
> {
    match spec_strip(content, prefix, bot_id) {
        Some(rest) => {
            let t = skip_spaces(rest);
            if t.len() == 0 {
                None
            } else {
                Some((token_of(t), skip_spaces(after_token(t))))
            }
        },
        None => None,
    }
}

/// The bytes of the help command's name.
pub fn help_name_bytes() -> (r: Vec<u8>)
    ensures
        r@ == help_name(),
{
    let mut r: Vec<u8> = Vec::new();
    r.push(104);
    r.push(101);
    r.push(108);
    r.push(112);
    proof {
        assert(r@ =~= help_name());
    }
    r
}

/// Applies the dispatch matching policy to one inbound message: a message
/// is a command exactly when it starts with the configured prefix or with a
/// direct mention of the bot; the remainder is split into a command name
/// and argument text, and the name is looked up in the table, the
/// synthesized help command included. Unmatched text is ignored, not an
/// error.
pub fn match_message(table: &CommandTable, prefix: &Vec<u8>, bot_id: u64, content: &Vec<u8>) -> (r:
    CommandMatch)
    ensures
        match r {
            CommandMatch::NotACommand => spec_invocation(content@, prefix@, bot_id) is None,
            CommandMatch::Unknown { name } => {
                &&& spec_invocation(content@, prefix@, bot_id) matches Some(p)
                &&& name@ == p.0
                &&& p.0 != help_name()
                &&& !table_has_match(*table, p.0)
            },
            CommandMatch::Help { args } => {
                &&& spec_invocation(content@, prefix@, bot_id) matches Some(p)
                &&& p.0 == help_name()
                &&& args@ == p.1
            },
            CommandMatch::Command { group, index, args } => {
                &&& spec_invocation(content@, prefix@, bot_id) matches Some(p)
                &&& p.0 != help_name()
                &&& args@ == p.1
                &&& is_first_match(*table, p.0, group as int, index as int)
            },
        },
{
    let mut start: usize = 0;
    let mut matched: bool = false;
    if has_prefix(content, prefix) {
        start = prefix.len();
        matched = true;
    } else {
        let m = render_mention(bot_id, false);
        if has_prefix(content, &m) {
            start = m.len();
            matched = true;
        } else {
            let m2 = render_mention(bot_id, true);
            if has_prefix(content, &m2) {
                start = m2.len();
                matched = true;
            }
        }
    }
    if !matched {
        return CommandMatch::NotACommand;
    }
    proof {
        assert(spec_strip(content@, prefix@, bot_id) == Some(content@.skip(start as int)));
    }
    let k = scan_spaces(content, start);
    if k == content.len() {
        proof {
            assert(skip_spaces(content@.skip(start as int)).len() == 0);
        }
        return CommandMatch::NotACommand;
    }
    let j = scan_token(content, k);
    let name = copy_range(content, k, j);
    let a = scan_spaces(content, j);
    let args = copy_range(content, a, content.len());
    proof {
        let t = skip_spaces(content@.skip(start as int));
        assert(t == content@.skip(k as int));
        assert(name@ == token_of(t));
        assert(after_token(t) == content@.skip(j as int));
        assert(args@ =~= content@.skip(a as int));
        assert(args@ == skip_spaces(after_token(t)));
    }
    let help = help_name_bytes();
    if bytes_eq(&name, &help) {
        return CommandMatch::Help { args };
    }
    match find_command(table, &name) {
        Some((g, i)) => CommandMatch::Command { group: g, index: i, args },
        None => CommandMatch::Unknown { name },
    }
}

/// What the gateway does with a matched message once the before-hook has
/// spoken.
pub enum DispatchOutcome {
    /// The text was no command, or named no known command: nothing runs.
    Ignored,
    /// The before-hook refused the invocation: the handler does not run.
    Vetoed,
    /// The handler of the command at `(group, index)` runs with `args`.
    Invoke { group: usize, index: usize, args: Vec<u8> },
    /// The synthesized help command runs with `args`.
    InvokeHelp { args: Vec<u8> },
}

/// Turns a match and the before-hook's verdict into the dispatch outcome.
/// A refusing hook vetoes the invocation: with `before_ok` false no handler
/// runs, whatever was matched.
pub fn dispatch(m: CommandMatch, before_ok: bool) -> (r: DispatchOutcome)
    ensures
        !before_ok ==> !(r is Invoke) && !(r is InvokeHelp),
        match m {
            CommandMatch::NotACommand => r is Ignored,
            CommandMatch::Unknown { .. } => r is Ignored,
            CommandMatch::Help { args } => r == if before_ok {
                DispatchOutcome::InvokeHelp { args }
            } else {
                DispatchOutcome::Vetoed
            },
            CommandMatch::Command { group, index, args } => r == if before_ok {
                DispatchOutcome::Invoke { group, index, args }
            } else {
                DispatchOutcome::Vetoed
            },
        },
{
    match m {
        CommandMatch::NotACommand => DispatchOutcome::Ignored,
        CommandMatch::Unknown { .. } => DispatchOutcome::Ignored,
        CommandMatch::Help { args } => {
            if before_ok {
                DispatchOutcome::InvokeHelp { args }
            } else {
                DispatchOutcome::Vetoed
            }
        },
        CommandMatch::Command { group, index, args } => {
            if before_ok {
                DispatchOutcome::Invoke { group, index, args }
            } else {
                DispatchOutcome::Vetoed
            }
        },
    }
}

/// The event-callback shell for one inbound message: matches it against
/// the dispatch policy and applies the before-hook's verdict. Exactly one
/// of three things results: nothing runs (no command, or an unknown name),
/// the invocation is vetoed, or the matched handler — the first matching
/// table entry, or the synthesized help command — runs with the argument
/// text.
pub fn handle_message(
    table: &CommandTable,
    prefix: &Vec<u8>,
    bot_id: u64,
    content: &Vec<u8>,
    before_ok: bool,
) -> (r: DispatchOutcome)
    ensures
        !before_ok ==> !(r is Invoke) && !(r is InvokeHelp),
        match spec_invocation(content@, prefix@, bot_id) {
            Some(p) => if p.0 == help_name() {
                if before_ok {
                    r matches DispatchOutcome::InvokeHelp { args } && args@ == p.1
                } else {
                    r is Vetoed
                }
            } else if table_has_match(*table, p.0) {
                if before_ok {
                    &&& r matches DispatchOutcome::Invoke { group, index, args }
                    &&& is_first_match(*table, p.0, group as int, index as int)
                    &&& args@ == p.1
                } else {
                    r is Vetoed
                }
            } else {
                r is Ignored
            },
            None => r is Ignored,
        },
{
    let m = match_message(table, prefix, bot_id, content);
    proof {
        if let CommandMatch::Command { group, index, .. } = m {
            let p = spec_invocation(content@, prefix@, bot_id)->Some_0;
            assert(entry_matches(table.groups@[group as int].commands@[index as int], p.0));
            assert(group_has_match(table.groups@[group as int], p.0));
            assert(table_has_match(*table, p.0));
        }
    }
    dispatch(m, before_ok)
}

/// The opening words of the before-hook's debug line: `Handling '`.
pub open spec fn handling_lit() -> Seq<u8> {
    seq![72u8, 97u8, 110u8, 100u8, 108u8, 105u8, 110u8, 103u8, 32u8, 39u8]
}

/// The middle words of the before-hook's debug line: `' command for `.
pub open spec fn command_for_lit() -> Seq<u8> {
    seq![39u8, 32u8, 99u8, 111u8, 109u8, 109u8, 97u8, 110u8, 100u8, 32u8, 102u8, 111u8, 114u8, 32u8]
}

/// The debug line the before-hook emits: the command name and the invoking
/// user's name and discriminator.
pub open spec fn before_log_line(cmd: Seq<u8>, author: Seq<u8>, disc: u16) -> Seq<u8> {
    handling_lit() + cmd + command_for_lit() + author + seq![35u8] + spec_digits(disc as nat)
}

/// The hook that runs ahead of every dispatched command. It hands back a
/// line for the debug log and answers whether dispatch may proceed; the
/// default verdict is consent, and a `false` verdict vetoes the invocation
/// (see `dispatch`).
pub fn before_hook(cmd: &Vec<u8>, author: &Vec<u8>, disc: u16) -> (r: (bool, Vec<u8>))
    ensures
        r.0 == true,
        r.1@ == before_log_line(cmd@, author@, disc),
{
    let mut line: Vec<u8> = Vec::new();
    line.push(72);
    line.push(97);
    line.push(110);
    line.push(100);
    line.push(108);
    line.push(105);
    line.push(110);
    line.push(103);
    line.push(32);
    line.push(39);
    proof {
        assert(line@ =~= handling_lit());
    }
    push_all(&mut line, cmd);
    let ghost mid = line@;
    line.push(39);
    line.push(32);
    line.push(99);
    line.push(111);
    line.push(109);
    line.push(109);
    line.push(97);
    line.push(110);
    line.push(100);
    line.push(32);
    line.push(102);
    line.push(111);
    line.push(114);
    line.push(32);
    proof {
        assert(line@ =~= mid + command_for_lit());
    }
    push_all(&mut line, author);
    line.push(35);
    let digits = u64_to_digits(disc as u64);
    push_all(&mut line, &digits);
    proof {
        assert(line@ =~= before_log_line(cmd@, author@, disc));
    }
    (true, line)
}

/// The heading of one group in the help listing: `== ` name ` ==` newline.
pub open spec fn group_header(g: CommandGroup) -> Seq<u8> {
    seq![61u8, 61u8, 32u8] + g.name@ + seq![32u8, 61u8, 61u8, 10u8]
}

/// One command's line in the help listing: `- ` name `: ` description
/// newline.
pub open spec fn entry_line(e: CommandEntry) -> Seq<u8> {
    seq![45u8, 32u8] + e.name@ + seq![58u8, 32u8] + e.description@ + seq![10u8]
}

/// The lines of a run of commands, in registration order.
pub open spec fn entries_listing(s: Seq<CommandEntry>) -> Seq<u8>
    decreases s.len(),
{
    if s.len() == 0 {
        Seq::empty()
    } else {
        entries_listing(s.drop_last()) + entry_line(s.last())
    }
}

/// One group's section of the help listing: its heading, then its commands.
pub open spec fn group_section(g: CommandGroup) -> Seq<u8> {
    group_header(g) + entries_listing(g.commands@)
}

/// The sections of a run of groups, in registration order.
pub open spec fn groups_listing(s: Seq<CommandGroup>) -> Seq<u8>
    decreases s.len(),
{
    if s.len() == 0 {
        Seq::empty()
    } else {
        groups_listing(s.drop_last()) + group_section(s.last())
    }
}

/// The lines of the commands of a run that answer to `n`.
pub open spec fn matching_lines_in(s: Seq<CommandEntry>, n: Seq<u8>) -> Seq<u8>
    decreases s.len(),
{
    if s.len() == 0 {
        Seq::empty()
    } else {
        matching_lines_in(s.drop_last(), n) + (if entry_matches(s.last(), n) {
            entry_line(s.last())
        } else {
            Seq::empty()
        })
    }
}

/// The matching lines over a run of groups, in registration order.
pub open spec fn matching_lines(s: Seq<CommandGroup>, n: Seq<u8>) -> Seq<u8>
    decreases s.len(),
{
    if s.len() == 0 {
        Seq::empty()
    } else {
        matching_lines(s.drop_last(), n) + matching_lines_in(s.last().commands@, n)
    }
}

/// The line shown when the help filter names no command: `No such command`
/// and a newline.
pub open spec fn not_found_line() -> Seq<u8> {
    seq![78u8, 111u8, 32u8, 115u8, 117u8, 99u8, 104u8, 32u8, 99u8, 111u8, 109u8, 109u8, 97u8,
        110u8, 100u8, 10u8]
}

/// What the help command renders: with no filter, the full listing of every
/// group and command; with a filter, the lines of the commands that answer
/// to it, or the not-found line where none does.
pub open spec fn spec_render_help(t: CommandTable, args: Seq<u8>) -> Seq<u8> {
    if args.len() == 0 {
        groups_listing(t.groups@)
    } else if table_has_match(t, args) {
        matching_lines(t.groups@, args)
    } else {
        not_found_line()
    }
}

/// Appends one command's help line.
fn push_entry_line(out: &mut Vec<u8>, e: &CommandEntry)
    ensures
        final(out)@ == old(out)@ + entry_line(*e),
{
    out.push(45);
    out.push(32);
    push_all(out, &e.name);
    out.push(58);
    out.push(32);
    push_all(out, &e.description);
    out.push(10);
    proof {
        assert(out@ =~= old(out)@ + entry_line(*e));
    }
}

/// Appends one group's heading.
fn push_group_header(out: &mut Vec<u8>, g: &CommandGroup)
    ensures
        final(out)@ == old(out)@ + group_header(*g),
{
    out.push(61);
    out.push(61);
    out.push(32);
    push_all(out, &g.name);
    out.push(32);
    out.push(61);
    out.push(61);
    out.push(10);
    proof {
        assert(out@ =~= old(out)@ + group_header(*g));
    }
}

/// The not-found line as bytes.
fn not_found_bytes() -> (r: Vec<u8>)
    ensures
        r@ == not_found_line(),
{
    let mut r: Vec<u8> = Vec::new();
    r.push(78);
    r.push(111);
    r.push(32);
    r.push(115);
    r.push(117);
    r.push(99);
    r.push(104);
    r.push(32);
    r.push(99);
    r.push(111);
    r.push(109);
    r.push(109);
    r.push(97);
    r.push(110);
    r.push(100);
    r.push(10);
    proof {
        assert(r@ =~= not_found_line());
    }
    r
}

/// Renders the help command's answer. It introspects the full table and
/// always completes with a rendered listing; a filter that names no
/// command yields the not-found line rather than a failure.
pub fn render_help(t: &CommandTable, args: &Vec<u8>) -> (r: Vec<u8>)
    ensures
        r@ == spec_render_help(*t, args@),
{
    let mut out: Vec<u8> = Vec::new();
    if args.len() == 0 {
        let mut gi: usize = 0;
        while gi < t.groups.len()
            invariant
                gi <= t.groups@.len(),
                out@ == groups_listing(t.groups@.take(gi as int)),
            decreases t.groups@.len() - gi,
        {
            push_group_header(&mut out, &t.groups[gi]);
            let ghost base = out@;
            let mut ci: usize = 0;
            while ci < t.groups[gi].commands.len()
                invariant
                    gi < t.groups@.len(),
                    ci <= t.groups@[gi as int].commands@.len(),
                    base == groups_listing(t.groups@.take(gi as int)) + group_header(
                        t.groups@[gi as int],
                    ),
                    out@ == base + entries_listing(t.groups@[gi as int].commands@.take(ci as int)),
                decreases t.groups@[gi as int].commands@.len() - ci,
            {
                push_entry_line(&mut out, &t.groups[gi].commands[ci]);
                proof {
                    let cs = t.groups@[gi as int].commands@;
                    assert(cs.take(ci + 1).drop_last() =~= cs.take(ci as int));
                    assert(cs.take(ci + 1).last() == cs[ci as int]);
                    assert(out@ =~= base + entries_listing(cs.take(ci + 1)));
                }
                ci = ci + 1;
            }
            proof {
                let gs = t.groups@;
                assert(gs[gi as int].commands@.take(gs[gi as int].commands@.len() as int)
                    =~= gs[gi as int].commands@);
                assert(gs.take(gi + 1).drop_last() =~= gs.take(gi as int));
                assert(gs.take(gi + 1).last() == gs[gi as int]);
                assert(out@ =~= groups_listing(gs.take(gi + 1)));
            }
            gi = gi + 1;
        }
        proof {
            assert(t.groups@.take(t.groups@.len() as int) =~= t.groups@);
        }
        out
    } else {
        if find_command(t, args).is_none() {
            return not_found_bytes();
        }
        let mut gi: usize = 0;
        while gi < t.groups.len()
            invariant
                gi <= t.groups@.len(),
                out@ == matching_lines(t.groups@.take(gi as int), args@),
            decreases t.groups@.len() - gi,
        {
            let ghost base = out@;
            let mut ci: usize = 0;
            while ci < t.groups[gi].commands.len()
                invariant
                    gi < t.groups@.len(),
                    ci <= t.groups@[gi as int].commands@.len(),
                    base == matching_lines(t.groups@.take(gi as int), args@),
                    out@ == base + matching_lines_in(
                        t.groups@[gi as int].commands@.take(ci as int),
                        args@,
                    ),
                decreases t.groups@[gi as int].commands@.len() - ci,
            {
                let is_m = entry_is_match(&t.groups[gi].commands[ci], args);
                if is_m {
                    push_entry_line(&mut out, &t.groups[gi].commands[ci]);
                }
                proof {
                    let cs = t.groups@[gi as int].commands@;
                    assert(cs.take(ci + 1).drop_last() =~= cs.take(ci as int));
                    assert(cs.take(ci + 1).last() == cs[ci as int]);
                    assert(out@ =~= base + matching_lines_in(cs.take(ci + 1), args@));
                }
                ci = ci + 1;
            }
            proof {
                let gs = t.groups@;
                assert(gs[gi as int].commands@.take(gs[gi as int].commands@.len() as int)
                    =~= gs[gi as int].commands@);
                assert(gs.take(gi + 1).drop_last() =~= gs.take(gi as int));
                assert(gs.take(gi + 1).last() == gs[gi as int]);
                assert(out@ =~= matching_lines(gs.take(gi + 1), args@));
            }
            gi = gi + 1;
        }
        proof {
            assert(t.groups@.take(t.groups@.len() as int) =~= t.groups@);
        }
        out
    }
}

/// Help output is a function of the table and the argument text alone:
/// against an unchanged table, two renderings with identical arguments are
/// byte-identical.
pub proof fn lemma_help_idempotent(t: CommandTable, args: Seq<u8>, r1: Seq<u8>, r2: Seq<u8>)
    requires
        r1 == spec_render_help(t, args),
        r2 == spec_render_help(t, args),
    ensures
        r1 == r2,
{
}

} // verus!
