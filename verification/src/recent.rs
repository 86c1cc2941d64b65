//! The configurations used last.

use vstd::prelude::*;
use vstd::string::*;
use crate::app::{GuiView, OpenVpnGui};
use crate::models::{Command, CommandView, command_views};
use crate::text::{debug_quoted, debug_repr, join, joined, lines, lines_in};

verus! {

/// The number of recent configurations that are kept.
pub const RECENT_CAPACITY: usize = 10;

/// A list without the entries that equal `path`, the others in their order.
pub open spec fn without(list: Seq<Seq<char>>, path: Seq<char>) -> Seq<Seq<char>>
    decreases list.len(),
{
    if list.len() == 0 {
        Seq::empty()
    } else if list.last() == path {
        without(list.drop_last(), path)
    } else {
        without(list.drop_last(), path).push(list.last())
    }
}

/// The recent configurations after `path` was used: `path` first, then the
/// others in their order, cut to the capacity.
pub open spec fn recent_with(list: Seq<Seq<char>>, path: Seq<char>) -> Seq<Seq<char>> {
    let all = seq![path] + without(list, path);
    if all.len() > RECENT_CAPACITY {
        all.take(RECENT_CAPACITY as int)
    } else {
        all
    }
}

/// The first `cap` lines that are not empty among the first `upto` lines.
pub open spec fn kept_lines(lines: Seq<Seq<char>>, upto: nat, cap: nat) -> Seq<Seq<char>>
    decreases upto,
{
    if upto == 0 {
        Seq::empty()
    } else {
        let earlier = kept_lines(lines, (upto - 1) as nat, cap);
        if earlier.len() < cap && lines[upto - 1].len() > 0 {
            earlier.push(lines[upto - 1])
        } else {
            earlier
        }
    }
}

/// Reads the stored list of recent configurations: one per line, empty
/// lines skipped, no more than the capacity.
pub fn load_recent_configs(contents: &str) -> (recent: Vec<String>)
    ensures
        recent.deep_view() == kept_lines(
            lines_in(contents@),
            lines_in(contents@).len(),
            RECENT_CAPACITY as nat,
        ),
        recent.len() <= RECENT_CAPACITY,
{
    let all = lines(contents);
    let mut recent: Vec<String> = Vec::new();
    let mut i: usize = 0;
    while i < all.len()
        invariant
            i <= all.len(),
            recent.len() <= RECENT_CAPACITY,
            recent.deep_view() == kept_lines(all.deep_view(), i as nat, RECENT_CAPACITY as nat),
        decreases all.len() - i,
    {
        if recent.len() < RECENT_CAPACITY && !all[i].as_str().is_empty() {
            let ghost before = recent.deep_view();
            recent.push(all[i].clone());
            proof {
                assert(recent.deep_view() =~= before.push(all[i as int]@));
            }
        }
        proof {
            assert(all.deep_view()[i as int] == all[i as int]@);
        }
        i = i + 1;
    }
    recent
}

impl GuiView {
    /// The state after `path` became the configuration in use, and the first
    /// of the recent ones.
    pub open spec fn with_config(self, path: Seq<char>) -> GuiView {
        GuiView {
            config_path: Some(path),
            recent_configs: recent_with(self.recent_configs, path),
            ..self
        }
    }

    /// The state after the file dialog came back.
    pub open spec fn after_config_selected(self, path: Option<String>, stamp: Seq<char>) -> GuiView {
        match path {
            Some(p) => self.with_config(p@).logged(stamp, "Selected config: "@ + debug_repr(p@)),
            None => self,
        }
    }

    /// The command that stores a list of recent configurations, one per line.
    pub open spec fn save_recent(recent: Seq<Seq<char>>) -> Seq<CommandView> {
        seq![CommandView::SaveRecentConfigs(joined(recent, "\n"@))]
    }

    /// The state after a recent configuration was picked.
    pub open spec fn after_select_recent(self, path: Seq<char>, stamp: Seq<char>) -> GuiView {
        self.with_config(path).logged(stamp, "Selected recent config: "@ + path)
    }

    /// The state after the recent configurations were cleared.
    pub open spec fn after_clear_recent(self, stamp: Seq<char>) -> GuiView {
        (GuiView { recent_configs: Seq::empty(), ..self }).logged(
            stamp,
            "Recent configs cleared"@,
        )
    }
}

impl OpenVpnGui {
    /// Puts `path` in front of the recent configurations, drops its earlier
    /// entries and cuts the list to its capacity.
    pub fn add_to_recent_configs(&mut self, path: String) -> (cmds: Vec<Command>)
        ensures
            final(self)@ == (GuiView {
                recent_configs: recent_with(old(self)@.recent_configs, path@),
                ..old(self)@
            }),
            command_views(cmds@) == GuiView::save_recent(final(self)@.recent_configs),
    {
        let mut kept: Vec<String> = Vec::new();
        kept.push(path.clone());
        let mut i: usize = 0;
        while i < self.recent_configs.len()
            invariant
                i <= self.recent_configs.len(),
                *self == *old(self),
                kept.deep_view() == seq![path@] + without(
                    self.recent_configs.deep_view().take(i as int),
                    path@,
                ),
            decreases self.recent_configs.len() - i,
        {
            proof {
                let list = self.recent_configs.deep_view();
                assert(list.take(i as int + 1).drop_last() =~= list.take(i as int));
                assert(list.take(i as int + 1).last() == self.recent_configs[i as int]@);
            }
            if !(self.recent_configs[i] == path) {
                let ghost before = kept.deep_view();
                kept.push(self.recent_configs[i].clone());
                proof {
                    assert(kept.deep_view() =~= before.push(self.recent_configs[i as int]@));
                    assert(kept.deep_view() =~= seq![path@] + without(
                        self.recent_configs.deep_view().take(i as int + 1),
                        path@,
                    ));
                }
            }
            i = i + 1;
        }
        proof {
            let list = self.recent_configs.deep_view();
            assert(list.take(list.len() as int) =~= list);
        }
        if kept.len() > RECENT_CAPACITY {
            let ghost before = kept.deep_view();
            kept.truncate(RECENT_CAPACITY);
            proof {
                assert(kept.deep_view() =~= before.take(RECENT_CAPACITY as int));
            }
        }
        self.recent_configs = kept;
        let mut cmds: Vec<Command> = Vec::new();
        cmds.push(Command::SaveRecentConfigs(join(&self.recent_configs, "\n")));
        proof {
            assert(command_views(cmds@) =~= GuiView::save_recent(self@.recent_configs));
        }
        cmds
    }

    /// The file dialog came back.
    pub fn handle_config_selected(&mut self, path_opt: Option<String>, stamp: &str) -> (cmds: Vec<
        Command,
    >)
        ensures
            final(self)@ == old(self)@.after_config_selected(path_opt, stamp@),
            command_views(cmds@) == (match path_opt {
                Some(p) => GuiView::save_recent(final(self)@.recent_configs),
                None => Seq::empty(),
            }),
    {
        match path_opt {
            Some(path) => {
                self.config_path = Some(path.clone());
                let quoted = debug_quoted(path.as_str());
                let cmds = self.add_to_recent_configs(path);
                self.log_detail(stamp, "Selected config: ", quoted.as_str());
                cmds
            },
            None => {
                let cmds: Vec<Command> = Vec::new();
                proof {
                    assert(command_views(cmds@) =~= Seq::empty());
                }
                cmds
            },
        }
    }

    /// A recent configuration was picked.
    pub fn handle_select_recent(&mut self, path: String, stamp: &str) -> (cmds: Vec<Command>)
        ensures
            final(self)@ == old(self)@.after_select_recent(path@, stamp@),
            command_views(cmds@) == GuiView::save_recent(final(self)@.recent_configs),
    {
        self.config_path = Some(path.clone());
        let shown = path.clone();
        let cmds = self.add_to_recent_configs(path);
        self.log_detail(stamp, "Selected recent config: ", shown.as_str());
        cmds
    }

    /// The recent configurations are cleared.
    pub fn handle_clear_recent(&mut self, stamp: &str) -> (cmds: Vec<Command>)
        ensures
            final(self)@ == old(self)@.after_clear_recent(stamp@),
            command_views(cmds@) == GuiView::save_recent(Seq::empty()),
    {
        self.recent_configs = Vec::new();
        proof {
            assert(self.recent_configs.deep_view() =~= Seq::empty());
        }
        let mut cmds: Vec<Command> = Vec::new();
        cmds.push(Command::SaveRecentConfigs(join(&self.recent_configs, "\n")));
        self.log_at(stamp, "Recent configs cleared");
        proof {
            assert(command_views(cmds@) =~= GuiView::save_recent(Seq::empty()));
        }
        cmds
    }
}

/// A list without `path` holds `path` nowhere and is no longer than the
/// list.
pub proof fn lemma_without_drops(list: Seq<Seq<char>>, path: Seq<char>)
    ensures
        without(list, path).len() <= list.len(),
        forall|i: int| 0 <= i < without(list, path).len() ==> without(list, path)[i] != path,
    decreases list.len(),
{
    if list.len() > 0 {
        lemma_without_drops(list.drop_last(), path);
    }
}

/// After `path` was used, it is the first of the recent configurations and
/// stands nowhere else among them, and they are no more than the capacity.
pub proof fn lemma_recent_is_capped(list: Seq<Seq<char>>, path: Seq<char>)
    ensures
        0 < recent_with(list, path).len() <= RECENT_CAPACITY,
        recent_with(list, path)[0] == path,
        forall|i: int| 1 <= i < recent_with(list, path).len() ==> recent_with(list, path)[i] != path,
{
    lemma_without_drops(list, path);
    let rest = without(list, path);
    assert forall|i: int| 1 <= i < recent_with(list, path).len() implies recent_with(
        list,
        path,
    )[i] != path by {
        assert(recent_with(list, path)[i] == rest[i - 1]);
    }
}

} // verus!
