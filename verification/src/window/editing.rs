//! Opening files in an editor.
use super::split::SplitStep;
use super::{App, DaemonSplitOnComplete, Effect, Notice};
use crate::editor;
use crate::editor::{planner, OpenInEditorPlan};
use crate::layout::{PaneId, SplitDirection};
use crate::shell;
use vstd::prelude::*;

verus! {

/// A split that is to run an editor.
#[derive(Debug, PartialEq, Eq)]
pub enum EditorStep {
    /// The command goes with the split.
    InDaemon(SplitStep),
    /// The command is to be typed once the split ended; `original` had the focus
    /// before it.
    Local { step: SplitStep, original: Option<PaneId>, command: Vec<u8> },
}

/// The command that opens a location in the editor of a shell's environment.
pub open spec fn location_command(path_with_loc: Seq<char>, cwd: Option<Seq<char>>) -> Seq<u8> {
    vstd::utf8::encode_utf8(
        shell::editor_command_text(
            editor::path_part(path_with_loc),
            editor::line_part(path_with_loc),
            cwd,
        ),
    )
}

/// The command that opens a file in an editor that draws in a terminal.
pub open spec fn pane_command(editor: Seq<char>, path: Seq<char>, line: Seq<char>) -> Seq<u8> {
    vstd::utf8::encode_utf8(shell::launch_command_text(editor, path, line))
}

impl App {
    /// `self` is `old` once a split for a pane was started into which `command` is
    /// to be typed, and `r` is what is needed next. With a daemon the command goes
    /// with the split; otherwise it is typed once the split ended.
    pub open spec fn typed_from<C>(
        self,
        old: App,
        suited: C,
        command: Seq<u8>,
        r: EditorStep,
    ) -> bool where C: Fn(PaneId, SplitDirection) -> SplitDirection {
        if old.daemon_mode() {
            exists|bytes: Vec<u8>, step: SplitStep|
                {
                    &&& bytes@ == command
                    &&& r == EditorStep::InDaemon(step)
                    &&& #[trigger] self.auto_split_from(
                        old,
                        suited,
                        DaemonSplitOnComplete::WriteBytesAndFocus { bytes, toast: None },
                        step,
                    )
                }
        } else {
            &&& r matches EditorStep::Local { step, original, command: bytes }
            &&& original == old.focus()
            &&& bytes@ == command
            &&& self.auto_split_from(old, suited, DaemonSplitOnComplete::FocusAndRelayout, step)
        }
    }

    /// Starts to open a pane into which `bytes` are to be typed.
    fn type_in_new_pane<C>(&mut self, bytes: Vec<u8>, suited: C) -> (r: EditorStep) where
        C: Fn(PaneId, SplitDirection) -> SplitDirection,

        requires
            old(self).wf(),
            forall|p: PaneId, d: SplitDirection| call_requires(suited, (p, d)),
        ensures
            final(self).wf(),
            final(self).typed_from(*old(self), suited, bytes@, r),
    {
        if self.is_daemon_mode() {
            let ghost given = bytes;
            let step = self.split_focused_pane_auto_with(
                suited,
                DaemonSplitOnComplete::WriteBytesAndFocus { bytes, toast: None },
            );
            assert(self.auto_split_from(
                *old(self),
                suited,
                DaemonSplitOnComplete::WriteBytesAndFocus { bytes: given, toast: None },
                step,
            ));
            return EditorStep::InDaemon(step);
        }
        let original = self.focused_pane();
        let step = self.split_focused_pane_auto(suited);
        EditorStep::Local { step, original, command: bytes }
    }

    /// `self` is `old` once `plan` was carried out, and `r` is what is needed next:
    /// an editor that needs a terminal gets a pane, into which its command is
    /// typed. The user is told of what failed.
    pub open spec fn carried_out<L, O, C>(
        self,
        old: App,
        plan: OpenInEditorPlan,
        launch: L,
        open: O,
        suited: C,
        r: Option<EditorStep>,
    ) -> bool where
        L: Fn(&String, &String, &String) -> bool,
        O: Fn(&String) -> bool,
        C: Fn(PaneId, SplitDirection) -> SplitDirection,
     {
        match plan {
            OpenInEditorPlan::Fail(message) => {
                &&& r is None
                &&& self.only_added(old, seq![Effect::Toast(Notice::Text(message))])
            },
            OpenInEditorPlan::Spawn { editor, path, line } => {
                &&& r is None
                &&& exists|launched: bool| #[trigger]
                    call_ensures(launch, (&editor, &path, &line), launched) && self.only_added(
                        old,
                        if launched {
                            seq![]
                        } else {
                            seq![Effect::Toast(Notice::EditorLaunchFailed(editor))]
                        },
                    )
            },
            OpenInEditorPlan::SpawnInPane { editor, path, line } => r matches Some(step)
                && self.typed_from(old, suited, pane_command(editor@, path@, line@), step),
            OpenInEditorPlan::OpenFallback { path } => {
                &&& r is None
                &&& exists|opened: bool| #[trigger]
                    call_ensures(open, (&path,), opened) && self.only_added(
                        old,
                        if opened {
                            seq![]
                        } else {
                            seq![Effect::Toast(Notice::FallbackFailed)]
                        },
                    )
            },
        }
    }

    /// Carries a plan out. `launch` starts an editor with a path and a line as a
    /// process, and `open` leaves a file to the desktop.
    pub fn carry_out_plan<L, O, C>(
        &mut self,
        plan: OpenInEditorPlan,
        launch: L,
        open: O,
        suited: C,
    ) -> (r: Option<EditorStep>) where
        L: Fn(&String, &String, &String) -> bool,
        O: Fn(&String) -> bool,
        C: Fn(PaneId, SplitDirection) -> SplitDirection,

        requires
            old(self).wf(),
            forall|e: &String, p: &String, l: &String| call_requires(launch, (e, p, l)),
            forall|p: &String| call_requires(open, (p,)),
            forall|p: PaneId, d: SplitDirection| call_requires(suited, (p, d)),
        ensures
            final(self).wf(),
            final(self).carried_out(*old(self), plan, launch, open, suited, r),
    {
        assert(old(self).effects@ + Seq::<Effect>::empty() =~= old(self).effects@);
        match plan {
            OpenInEditorPlan::Fail(message) => {
                self.emit(Effect::Toast(Notice::Text(message)));
                None
            },
            OpenInEditorPlan::Spawn { editor, path, line } => {
                let launched = launch(&editor, &path, &line);
                assert(call_ensures(launch, (&editor, &path, &line), launched));
                if !launched {
                    self.emit(Effect::Toast(Notice::EditorLaunchFailed(editor)));
                }
                None
            },
            OpenInEditorPlan::SpawnInPane { editor, path, line } => {
                let command = shell::launch_command(editor.as_str(), path.as_str(), line.as_str());
                let bytes = command.as_str().as_bytes_vec();
                Some(self.type_in_new_pane(bytes, suited))
            },
            OpenInEditorPlan::OpenFallback { path } => {
                let opened = open(&path);
                assert(call_ensures(open, (&path,), opened));
                if !opened {
                    self.emit(Effect::Toast(Notice::FallbackFailed));
                }
                None
            },
        }
    }

    /// Opens a location. The file system and the search for an editor answer what
    /// the plan asks; `launch` starts an editor as a process, and `open` leaves a
    /// file to the desktop. An editor that needs a terminal gets a new pane, in the
    /// direction that `suited` gives.
    pub fn open_in_editor<M, R, E, L, O, C>(
        &mut self,
        path_with_loc: &str,
        chain: &[String],
        is_file_fn: M,
        resolve_fn: R,
        launch: L,
        open: O,
        suited: C,
    ) -> (r: Option<EditorStep>) where
        M: Fn(&str) -> Result<bool, E>,
        R: Fn(&[String]) -> Option<String>,
        L: Fn(&String, &String, &String) -> bool,
        O: Fn(&String) -> bool,
        C: Fn(PaneId, SplitDirection) -> SplitDirection,

        requires
            old(self).wf(),
            forall|p: &str| call_requires(is_file_fn, (p,)),
            forall|c: &[String]| call_requires(resolve_fn, (c,)),
            forall|e: &String, p: &String, l: &String| call_requires(launch, (e, p, l)),
            forall|p: &String| call_requires(open, (p,)),
            forall|p: PaneId, d: SplitDirection| call_requires(suited, (p, d)),
        ensures
            final(self).wf(),
            exists|plan: OpenInEditorPlan|
                {
                    &&& editor::planner::plan_follows(
                        path_with_loc@,
                        chain@,
                        is_file_fn,
                        resolve_fn,
                        true,
                        plan@,
                    )
                    &&& #[trigger] final(self).carried_out(
                        *old(self),
                        plan,
                        launch,
                        open,
                        suited,
                        r,
                    )
                },
    {
        let plan = planner::plan_open_in_editor(path_with_loc, chain, is_file_fn, resolve_fn);
        let ghost planned = plan;
        let r = self.carry_out_plan(plan, launch, open, suited);
        assert(self.carried_out(*old(self), planned, launch, open, suited, r));
        r
    }

    /// What the user is told when a file was to be opened, given whether the
    /// editor was launched and whether the desktop took the file.
    pub open spec fn absolute_effects(
        path: String,
        editor: Option<String>,
        launched: bool,
        opened: bool,
    ) -> Seq<Effect> {
        let told = match editor {
            Some(name) if !launched => seq![Effect::Toast(Notice::EditorLaunchFailed(name))],
            _ => seq![],
        };
        if (editor is Some && launched) || opened {
            told
        } else {
            told.push(Effect::Toast(Notice::CouldNotOpen(path)))
        }
    }

    /// Opens a file: in the editor if there is one, else, or if that fails, with
    /// what the desktop has for it.
    pub fn open_absolute_in_editor<L, O>(
        &mut self,
        path: String,
        editor: Option<String>,
        launch: L,
        open: O,
    ) where L: Fn(&String) -> bool, O: Fn(&String) -> bool
        requires
            forall|e: &String| call_requires(launch, (e,)),
            forall|p: &String| call_requires(open, (p,)),
        ensures
            exists|launched: bool, opened: bool|
                {
                    &&& editor matches Some(e) ==> call_ensures(launch, (&e,), launched)
                    &&& editor is None || !launched ==> call_ensures(open, (&path,), opened)
                    &&& #[trigger] final(self).only_added(
                        *old(self),
                        App::absolute_effects(path, editor, launched, opened),
                    )
                },
    {
        let ghost given = editor;
        if let Some(name) = editor {
            let launched = launch(&name);
            if launched {
                assert(self.effects@ =~= old(self).effects@ + App::absolute_effects(
                    path,
                    given,
                    true,
                    false,
                ));
                assert(self.only_added(
                    *old(self),
                    App::absolute_effects(path, given, true, false),
                ));
                return;
            }
            self.emit(Effect::Toast(Notice::EditorLaunchFailed(name)));
        }
        let opened = open(&path);
        let ghost file = path;
        if !opened {
            self.emit(Effect::Toast(Notice::CouldNotOpen(path)));
        }
        assert(self.effects@ =~= old(self).effects@ + App::absolute_effects(
            file,
            given,
            false,
            opened,
        ));
        assert(self.only_added(*old(self), App::absolute_effects(file, given, false, opened)));
    }

    /// Starts to open a location in a new pane, with the editor of the shell
    /// there. `suited` gives the direction of the split.
    pub fn open_in_wsl_pane_editor<C>(
        &mut self,
        path_with_loc: &str,
        pane_cwd: Option<&str>,
        suited: C,
    ) -> (r: EditorStep) where C: Fn(PaneId, SplitDirection) -> SplitDirection
        requires
            old(self).wf(),
            forall|p: PaneId, d: SplitDirection| call_requires(suited, (p, d)),
        ensures
            final(self).wf(),
            final(self).typed_from(
                *old(self),
                suited,
                location_command(
                    path_with_loc@,
                    match pane_cwd {
                        Some(d) => Some(d@),
                        None => None,
                    },
                ),
                r,
            ),
    {
        let (path, line) = editor::split_location(path_with_loc);
        let command = shell::editor_command(path.as_str(), line.as_str(), pane_cwd);
        let bytes = command.as_str().as_bytes_vec();
        self.type_in_new_pane(bytes, suited)
    }

    /// Types the command into the pane that the split opened: the focused one, if
    /// the focus moved.
    pub fn finish_wsl_pane_editor(&mut self, original: Option<PaneId>, command: Vec<u8>)
        ensures
            match old(self).focus() {
                Some(pane) if original != Some(pane) => final(self).only_added(
                    *old(self),
                    old(self).if_shown(Some(pane), Effect::WritePty { pane, bytes: command }),
                ),
                _ => final(self).only_added(
                    *old(self),
                    seq![Effect::Toast(Notice::EditorSplitFailed)],
                ),
            },
    {
        if let Some(pane) = self.focused_pane() {
            if original != Some(pane) {
                self.pty_write_to_pane(command, pane);
                return;
            }
        }
        self.emit(Effect::Toast(Notice::EditorSplitFailed));
    }
}

} // verus!
