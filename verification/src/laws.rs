//! Properties that span several operations of the library.
use vstd::prelude::*;
use crate::app_state::{prefix_of, AppState, Command, Message, Screen, step};
use crate::config::{assignments_spec, insert_sorted, keys_ascending, text_less, lemma_text_less_irreflexive};
use crate::config_editor::saved_environment;
use crate::i18n::{ftl_messages, I18n};
use crate::download::{after_update, ended, progress_of, DownloadState, DownloadUpdate, Progress};
use crate::launcher::metadata_version;
use crate::pages::{runner, welcome};
use crate::runner::{RunnerStatus, status_text};
use crate::text::{trim, trim_char, trim_end_char, trim_start_char};

verus! {

/// Translations made from one Fluent source for a language (as
/// `I18n::new` makes them) give back that source's messages: a key has a
/// text exactly where the source holds a message with a value for it, and
/// the text is the one the source gives.
pub proof fn law_translations_read_their_source(i: I18n, lang: Seq<char>, ftl: Seq<char>, key: Seq<char>)
    requires
        i.locale() == lang,
        !i.isolating(),
        i.sources() == seq![ftl],
    ensures
        i.has_text(key) <==> (ftl_messages(lang, ftl).contains_key(key) && ftl_messages(lang, ftl)[key] is Some),
        i.has_text(key) ==> i.text(key) == ftl_messages(lang, ftl)[key]->0,
{
}

/// The text order is transitive.
pub proof fn lemma_text_less_transitive(a: Seq<char>, b: Seq<char>, c: Seq<char>)
    requires
        text_less(a, b),
        text_less(b, c),
    ensures
        text_less(a, c),
    decreases a.len(),
{
    if a.len() > 0 && a[0] == b[0] && b[0] == c[0] {
        lemma_text_less_transitive(a.drop_first(), b.drop_first(), c.drop_first());
    }
}

/// In ascending entries every key comes before every later key.
pub proof fn lemma_ascending_pairwise(s: Seq<(Seq<char>, Seq<char>)>, i: int, j: int)
    requires
        keys_ascending(s),
        0 <= i < j < s.len(),
    ensures
        text_less(s[i].0, s[j].0),
    decreases j - i,
{
    if j - i > 1 {
        lemma_ascending_pairwise(s, i, j - 1);
        let k = j - 1;
        assert(text_less(s[k].0, s[k + 1].0));
        lemma_text_less_transitive(s[i].0, s[j - 1].0, s[j].0);
    } else {
        assert(text_less(s[i].0, s[i + 1].0));
    }
}

/// Setting a key that comes after every key appends the entry.
proof fn lemma_insert_last(s: Seq<(Seq<char>, Seq<char>)>, key: Seq<char>, value: Seq<char>)
    requires
        forall|j: int| 0 <= j < s.len() ==> text_less(#[trigger] s[j].0, key),
    ensures
        insert_sorted(s, key, value) == s.push((key, value)),
    decreases s.len(),
{
    if s.len() > 0 {
        lemma_text_less_irreflexive(key);
        crate::config::lemma_text_less_asymmetric(s[0].0, key);
        let t = s.drop_first();
        assert forall|j: int| 0 <= j < t.len() implies text_less(#[trigger] t[j].0, key) by {
            assert(t[j] == s[j + 1]);
        }
        lemma_insert_last(t, key, value);
        assert(s.push((key, value)) =~= seq![s[0]] + t.push((key, value)));
    } else {
        assert(s.push((key, value)) =~= seq![(key, value)]);
    }
}

/// Opening the environment editor on a configuration and saving it without
/// an edit writes the same environment, where every key is already trimmed
/// and non-empty (an editor row with an untrimmed or empty key is trimmed
/// or dropped on saving).
pub proof fn law_editor_save_round_trip(env: Seq<(Seq<char>, Seq<char>)>)
    requires
        keys_ascending(env),
        forall|i: int| 0 <= i < env.len() ==> trim(#[trigger] env[i].0) == env[i].0 && env[i].0.len() > 0,
    ensures
        saved_environment(env) == env,
    decreases env.len(),
{
    if env.len() > 0 {
        let front = env.drop_last();
        assert forall|i: int| 0 <= i < front.len() - 1 implies #[trigger] text_less(front[i].0, front[i + 1].0) by {
            assert(text_less(env[i].0, env[i + 1].0));
        }
        assert forall|i: int| 0 <= i < front.len() implies trim(#[trigger] front[i].0) == front[i].0
            && front[i].0.len() > 0 by {
            assert(front[i] == env[i]);
        }
        law_editor_save_round_trip(front);
        let last = env.last();
        assert(trim(env[env.len() - 1].0) == env[env.len() - 1].0);
        assert forall|j: int| 0 <= j < front.len() implies text_less(#[trigger] front[j].0, last.0) by {
            lemma_ascending_pairwise(env, j, env.len() - 1);
        }
        lemma_insert_last(front, last.0, last.1);
        assert(front.push(last) =~= env);
    }
}

/// Setting a key twice is setting it once to the later value.
pub proof fn law_later_value_wins(s: Seq<(Seq<char>, Seq<char>)>, key: Seq<char>, first: Seq<char>, second: Seq<char>)
    ensures
        insert_sorted(insert_sorted(s, key, first), key, second) == insert_sorted(s, key, second),
    decreases s.len(),
{
    if s.len() == 0 {
        assert(insert_sorted(s, key, first) =~= seq![(key, first)]);
        assert(insert_sorted(seq![(key, first)], key, second) =~= seq![(key, second)] + seq![(key, first)].drop_first());
        assert(seq![(key, second)] + seq![(key, first)].drop_first() =~= seq![(key, second)]);
    } else if s[0].0 == key {
        let r = seq![(key, first)] + s.drop_first();
        assert(r.drop_first() =~= s.drop_first());
    } else if text_less(key, s[0].0) {
        let r = seq![(key, first)] + s;
        assert(r.drop_first() =~= s);
    } else {
        let inner = insert_sorted(s.drop_first(), key, first);
        let r = seq![s[0]] + inner;
        assert(r[0] == s[0]);
        assert(r.drop_first() =~= inner);
        law_later_value_wins(s.drop_first(), key, first, second);
    }
}

/// A finished download update ends a running download, successful or not.
pub proof fn law_finish_ends_download(progress: Progress, result: Result<(), String>)
    ensures
        ended(after_update(DownloadState::Downloading { progress }, DownloadUpdate::Finished(result))),
{
}

/// Updates that reach a download that is not running change nothing.
pub proof fn law_idle_download_ignores_updates(state: DownloadState, update: DownloadUpdate)
    requires
        !(state is Downloading),
    ensures
        after_update(state, update) == state,
{
}

/// A successfully finished download reports all of its progress.
pub proof fn law_finished_download_is_complete(progress: Progress)
    ensures
        progress_of(after_update(DownloadState::Downloading { progress }, DownloadUpdate::Finished(Ok(()))))
            == Progress::complete(),
{
}

/// The failure line that the runner screen shows is the failure message
/// behind "Failed: ".
pub proof fn law_failure_label(err: String)
    ensures
        status_text(RunnerStatus::Failed(err)) == "Failed: "@ + err@,
{
}

/// Whatever the application does, its translations and labels stay.
pub proof fn law_translations_stay(s: AppState, m: Message, wp: Seq<char>, t: AppState, cmds: Seq<crate::app_state::Command>)
    requires
        step(s, m, wp, t, cmds),
    ensures
        t.i18n == s.i18n,
        t.label_back == s.label_back,
        t.label_exit == s.label_exit,
{
}

/// When an install or launch finishes, successfully or not, the runner
/// screen can be finished.
pub proof fn law_finished_run_can_finish(s: AppState, r: Result<(), String>, wp: Seq<char>, t: AppState, cmds: Seq<crate::app_state::Command>)
    requires
        step(s, Message::RunnerFinished(r), wp, t, cmds),
    ensures
        t.runner_state.status is Complete || t.runner_state.status is Failed,
{
}

/// Cancelling or finishing the runner returns to the welcome screen with
/// the runner idle.
pub proof fn law_runner_exit_resets(s: AppState, done: bool, wp: Seq<char>, t: AppState, cmds: Seq<crate::app_state::Command>)
    requires
        step(s, Message::Runner(if done { runner::Message::Done } else { runner::Message::Cancel }), wp, t, cmds),
    ensures
        t.screen == Screen::Welcome,
        t.runner_state.status is Idle,
        !t.runner_state.installed,
        t.runner_state.download is None,
        cmds.len() == 0,
{
}

/// Progress that reaches an active download is what the runner status
/// shows.
pub proof fn law_runner_shows_download_progress(s: AppState, p: Progress, wp: Seq<char>, t: AppState, cmds: Seq<crate::app_state::Command>)
    requires
        step(s, Message::Runner(runner::Message::DownloadUpdate(DownloadUpdate::Progress(p))), wp, t, cmds),
        s.runner_state.download is Some,
    ensures
        t.runner_state.status == (RunnerStatus::Downloading { progress: p }),
{
}

proof fn lemma_trim_start_char_head(s: Seq<char>, c: char)
    ensures
        trim_start_char(s, c).len() > 0 ==> trim_start_char(s, c)[0] != c,
        trim_start_char(s, c).len() <= s.len(),
        trim_start_char(s, c) == s.skip(s.len() - trim_start_char(s, c).len()),
    decreases s.len(),
{
    if s.len() > 0 && s[0] == c {
        lemma_trim_start_char_head(s.drop_first(), c);
        assert(s.drop_first().skip(s.drop_first().len() - trim_start_char(s, c).len()) =~= s.skip(
            s.len() - trim_start_char(s, c).len(),
        ));
    } else {
        assert(s.skip(0) =~= s);
    }
}

proof fn lemma_trim_end_char_tail(s: Seq<char>, c: char)
    ensures
        trim_end_char(s, c).len() > 0 ==> trim_end_char(s, c).last() != c,
        trim_end_char(s, c) == s.take(trim_end_char(s, c).len() as int),
        trim_end_char(s, c).len() <= s.len(),
    decreases s.len(),
{
    if s.len() > 0 && s.last() == c {
        lemma_trim_end_char_tail(s.drop_last(), c);
        assert(s.drop_last().take(trim_end_char(s, c).len() as int) =~= s.take(trim_end_char(s, c).len() as int));
    } else {
        assert(s.take(s.len() as int) =~= s);
    }
}

/// A text with `c` trimmed from both ends neither begins nor ends with `c`.
pub proof fn lemma_trim_char_ends(s: Seq<char>, c: char)
    ensures
        trim_char(s, c).len() > 0 ==> trim_char(s, c)[0] != c && trim_char(s, c).last() != c,
{
    let a = trim_start_char(s, c);
    lemma_trim_start_char_head(s, c);
    lemma_trim_end_char_tail(a, c);
    let r = trim_end_char(a, c);
    if r.len() > 0 {
        assert(r[0] == a[0]);
    }
}

proof fn lemma_first_version_unquoted(lines: Seq<Seq<char>>)
    ensures
        crate::launcher::first_version(lines) matches Some(v) ==> (v.len() > 0 ==> v[0] != '"' && v.last() != '"'),
    decreases lines.len(),
{
    if lines.len() > 0 {
        match crate::launcher::line_version(lines[0]) {
            Some(v) => {
                let t = trim(lines[0]);
                lemma_trim_char_ends(trim(t.skip(crate::launcher::version_key().len() as int)), '"');
            },
            None => {
                lemma_first_version_unquoted(lines.drop_first());
            },
        }
    }
}

/// The version read from release metadata never begins or ends with a
/// double quote.
pub proof fn law_version_unquoted(raw: Seq<char>)
    ensures
        metadata_version(raw) matches Some(v) ==> (v.len() > 0 ==> v[0] != '"' && v.last() != '"'),
{
    lemma_first_version_unquoted(crate::text::split_lines(raw));
}

} // verus!

verus! {

/// Installing the launcher from the welcome screen always opens the runner
/// screen. Where a game directory is configured, the install starts at
/// fetching the latest version: the launcher in the prefix is checked and
/// the version is fetched; where none is, the game directory is asked for
/// and the runner is left as it was.
pub proof fn law_welcome_install_opens_runner(s: AppState, wp: Seq<char>, t: AppState, cmds: Seq<Command>)
    requires
        step(s, Message::Welcome(welcome::Message::InstallLauncher), wp, t, cmds),
    ensures
        t.screen == Screen::Runner,
        s.config.game_path@.len() > 0 ==> t.runner_state.status is FetchingVersion && cmds.len() == 2
            && (cmds[0] matches Command::CheckLauncher { prefix } && prefix@ == prefix_of(
            s.config.game_path@,
            wp,
        )) && cmds[1] is FetchLatestVersion,
        s.config.game_path@.len() == 0 ==> t.runner_state == s.runner_state && cmds.len() == 1
            && cmds[0] is PickGamePath,
{
}

/// Running the launcher from the runner screen shows it launching, stays on
/// the screen, and starts the launcher of the configured prefix.
pub proof fn law_runner_run_launches(s: AppState, wp: Seq<char>, t: AppState, cmds: Seq<Command>)
    requires
        step(s, Message::Runner(runner::Message::RunLauncher), wp, t, cmds),
    ensures
        t.runner_state.status is Launching,
        t.screen == s.screen,
        cmds.len() == 1,
        cmds[0] matches Command::RunInstalledLauncher { prefix } && prefix@ == prefix_of(s.config.game_path@, wp),
{
}

/// A download has ended exactly when it finished or failed: a running
/// download, or one not started, has not.
pub proof fn law_ended_downloads(progress: Progress, err: String)
    ensures
        !ended(DownloadState::Downloading { progress }),
        !ended(DownloadState::Idle),
        ended(DownloadState::Finished),
        ended(DownloadState::Errored(err)),
{
}

/// Applying a configuration without a game directory assigns nothing for
/// an empty environment.
pub proof fn law_no_assignments_for_empty_environment()
    ensures
        assignments_spec(Seq::empty(), Seq::empty()) == Seq::<(Seq<char>, Seq<char>)>::empty(),
{
    reveal_with_fuel(Seq::filter, 1);
}

/// An environment entry added after the others is assigned after their
/// assignments exactly when its value is not empty, whatever the value
/// says; an entry with an empty value is skipped.
pub proof fn law_assignment_of_added_entry(env: Seq<(Seq<char>, Seq<char>)>, key: Seq<char>, value: Seq<char>)
    ensures
        value.len() > 0 ==> assignments_spec(Seq::empty(), env.push((key, value))) == assignments_spec(
            Seq::empty(),
            env,
        ).push((key, value)),
        value.len() == 0 ==> assignments_spec(Seq::empty(), env.push((key, value))) == assignments_spec(
            Seq::empty(),
            env,
        ),
{
    env.lemma_filter_push((key, value), crate::config::has_value());
}

/// A configured game directory adds one last assignment, `WINEPREFIX` set
/// to it, after those of the environment.
pub proof fn law_game_directory_sets_wineprefix(game_path: Seq<char>, env: Seq<(Seq<char>, Seq<char>)>)
    requires
        game_path.len() > 0,
    ensures
        assignments_spec(game_path, env) == assignments_spec(Seq::empty(), env).push(("WINEPREFIX"@, game_path)),
{
}

} // verus!
