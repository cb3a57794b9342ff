//! The Hermes bridge: from app-server requests to the Hermes agent.
//!
//! Core chat and thread requests are served; requests that only codex knows get
//! fixed answers or are refused.

use vstd::prelude::*;

use super::api_client::{CreateRunRequest, CreateRunResponse, HermesApiClient};
use super::config::{HermesBridgeConfig, HermesMode};
use super::event_store::EventStore;
use super::health_cache::HealthCache;
use super::index::{ThreadIndex, after_turn, or_else};
use super::input::{preview_for, preview_of, text_parts, truncate_string, truncated, user_text};
use super::run_manager::HermesRunManager;
use super::run_state::{
    HermesRunRecord, HermesTurnStatus, RunStore, RunV, RunsV, all_orphaned, marked_running,
    marked_terminal, rewritten, run_started, upserted,
};
use super::threads::{Handled, HandledV, answer, answered, refuse, refused};
use super::turn_log::{TurnLog, end_logged, item_logged, turns_of};
use crate::codex::answers::{
    config_written, config_written_json, empty_page, empty_page_json, key_account, key_account_json,
    key_login, key_login_json, no_login, no_login_json, no_rate_limits, no_rate_limits_json,
    skill_enabled, skill_enabled_json,
};
use crate::codex::command_exec::{CommandExecParams, CommandExecResponse, exec_json};
use crate::codex::methods::Method;
use crate::codex::models::{
    Model, ModelServiceTier, ReasoningEffort, ReasoningEffortOption, effort_json,
};
use crate::codex::notifications::{
    AgentMessageDeltaNotification, ItemCompletedNotification, ItemStartedNotification,
    TurnCompletedNotification, TurnStartedNotification,
};
use crate::codex::policy::{ApprovalV, AskForApproval, opt_approval};
use crate::codex::thread::{
    ItemV, ThreadItem, Turn, TurnError, TurnStatus, TurnV, UserInput, completed_turn, copy_inputs,
    fresh_turn, in_progress_turn, inputs, item_json, items, turn_model,
};
use crate::json::{Json, JsonV, ToJson, list_to_json};
use crate::rpc::{
    INTERNAL_ERROR, INVALID_PARAMS, JsonRpcError, METHOD_NOT_FOUND, Publication, PublicationV,
    ReplyV, error_response, publications, reply, rpc_error,
};
use crate::text::{
    decimal_i64, decimal_int, from_utf8_lossy, join2, joined, lossy, opt_copy, opt_text, owned,
};
use crate::text_map::TextMap;

verus! {

/// A turn that has not come to its end.
pub struct ActiveTurn {
    pub turn_id: String,
    pub thread_id: String,
    pub hermes_session_id: String,
    pub run_id: Option<String>,
}

/// The model of an active turn.
pub struct ActiveV {
    pub turn_id: Seq<char>,
    pub thread_id: Seq<char>,
    pub hermes_session_id: Seq<char>,
    pub run_id: Option<Seq<char>>,
}

impl ActiveTurn {
    /// The model of this turn.
    pub open spec fn view(&self) -> ActiveV {
        ActiveV {
            turn_id: self.turn_id@,
            thread_id: self.thread_id@,
            hermes_session_id: self.hermes_session_id@,
            run_id: opt_text(self.run_id),
        }
    }
}

/// The Hermes bridge.
pub struct HermesBridge {
    pub config: HermesBridgeConfig,
    pub index: ThreadIndex,
    /// The active turn of each thread that has one.
    pub state: TextMap<ActiveTurn>,
    pub turns: TurnLog,
    pub run_manager: HermesRunManager,
    pub health_cache: HealthCache,
}

impl HermesBridge {
    /// The active turns.
    pub open spec fn active(&self) -> Map<Seq<char>, ActiveV> {
        self.state@.map_values(|a: ActiveTurn| a.view())
    }

    /// The run records.
    pub open spec fn runs(&self) -> RunsV {
        self.run_manager.run_store.view()
    }

    /// Puts a bridge together from what was stored. Runs that were in flight when
    /// the last process ended are lost.
    pub fn new(
        config: HermesBridgeConfig,
        index: ThreadIndex,
        run_store: RunStore,
        event_store: EventStore,
        api_key: Option<String>,
        now: i64,
    ) -> (r: HermesBridge)
        ensures
            r.config == config,
            r.index == index,
            r.active() == Map::<Seq<char>, ActiveV>::empty(),
            r.turns.view() == Map::<Seq<char>, Seq<TurnV>>::empty(),
            r.runs() == all_orphaned(run_store.view(), now),
            r.run_manager.event_store == event_store,
            r.run_manager.client.base_url@ == super::api_client::without_slashes(
                config.mode.base(),
            ),
            r.run_manager.client.api_key == api_key,
            r.run_manager.active@ == Map::<Seq<char>, String>::empty(),
            r.health_cache.ttl() == config.health_cache_ttl_ms,
            r.health_cache.kept() is None,
    {
        let base = config.mode.api_base();
        let mut run_store = run_store;
        run_store.mark_orphans_unknown(now);
        let ttl: u64 = config.health_cache_ttl_ms;
        let r = HermesBridge {
            config,
            index,
            state: TextMap::new(),
            turns: TurnLog::new(),
            run_manager: HermesRunManager::new(
                HermesApiClient::new(base.as_str(), api_key),
                run_store,
                event_store,
            ),
            health_cache: HealthCache::new(ttl),
        };
        assert(r.active() =~= Map::empty());
        r
    }

    fn activate(&mut self, turn: ActiveTurn)
        ensures
            final(self).active() == old(self).active().insert(turn.thread_id@, turn.view()),
            final(self).config == old(self).config,
            final(self).index == old(self).index,
            final(self).turns == old(self).turns,
            final(self).run_manager == old(self).run_manager,
            final(self).health_cache == old(self).health_cache,
    {
        let id = turn.thread_id.clone();
        self.state.insert(id.as_str(), turn);
        assert(self.active() =~= old(self).active().insert(id@, turn.view()));
    }

    fn deactivate(&mut self, thread_id: &str) -> (r: Option<ActiveTurn>)
        ensures
            final(self).active() == old(self).active().remove(thread_id@),
            match r {
                Some(a) => old(self).active().dom().contains(thread_id@) && a.view()
                    == old(self).active()[thread_id@],
                None => !old(self).active().dom().contains(thread_id@),
            },
            final(self).config == old(self).config,
            final(self).index == old(self).index,
            final(self).turns == old(self).turns,
            final(self).run_manager == old(self).run_manager,
            final(self).health_cache == old(self).health_cache,
    {
        let r = self.state.remove(thread_id);
        assert(self.active() =~= old(self).active().remove(thread_id@));
        r
    }
}

// ---------------------------------------------------------------------------
// Starting a turn
// ---------------------------------------------------------------------------
/// What a client wants of a turn.
pub struct TurnStartParams {
    pub thread_id: String,
    pub input: Vec<UserInput>,
    pub cwd: Option<String>,
    pub model: Option<String>,
    pub approval_policy: Option<AskForApproval>,
}

/// How a turn is carried out.
#[derive(Clone, Copy, Debug, PartialEq, Eq, Structural)]
pub enum TurnRoute {
    /// By the gateway.
    Api,
    /// By the program.
    Cli,
}

/// How a turn is carried out in a mode, where the gateway is healthy or not.
pub open spec fn route_of(mode: HermesMode, healthy: bool) -> TurnRoute {
    match mode {
        HermesMode::Api { .. } => TurnRoute::Api,
        HermesMode::Cli { .. } => TurnRoute::Cli,
        HermesMode::Auto { .. } => if healthy {
            TurnRoute::Api
        } else {
            TurnRoute::Cli
        },
    }
}

/// Decides how a turn is carried out; only the automatic mode looks at the health
/// of the gateway.
pub fn choose_route(mode: &HermesMode, healthy: bool) -> (r: TurnRoute)
    ensures
        r == route_of(*mode, healthy),
{
    match mode {
        HermesMode::Api { .. } => TurnRoute::Api,
        HermesMode::Cli { .. } => TurnRoute::Cli,
        HermesMode::Auto { .. } => if healthy {
            TurnRoute::Api
        } else {
            TurnRoute::Cli
        },
    }
}

/// What clients are told when a turn starts: the turn, and the user's message.
pub open spec fn start_publications(
    thread: Seq<char>,
    turn: Seq<char>,
    user_item: ItemV,
    now: i64,
) -> Seq<PublicationV> {
    let item_params = JsonV::object()
        .with("item"@, item_json(user_item))
        .with("threadId"@, JsonV::Str(thread))
        .with("turnId"@, JsonV::Str(turn));
    seq![
        PublicationV {
            method: "turn/started"@,
            params: JsonV::object()
                .with("threadId"@, JsonV::Str(thread))
                .with(
                    "turn"@,
                    turn_model(fresh_turn(turn, TurnStatus::InProgress, Some(now))),
                ),
        },
        PublicationV { method: "item/started"@, params: item_params },
        PublicationV { method: "item/completed"@, params: item_params },
    ]
}

/// The record of a run that is about to be asked for.
pub open spec fn starting_record(
    thread: Seq<char>,
    turn: Seq<char>,
    session: Seq<char>,
    agent_item: Seq<char>,
    now: i64,
) -> RunV {
    RunV {
        thread_id: thread,
        turn_id: turn,
        hermes_session_id: session,
        run_id: None,
        status: HermesTurnStatus::Starting,
        created_at: now,
        updated_at: now,
        completed_at: None,
        error: None,
        accumulated_text: seq![],
        last_event_seq: None,
        agent_item_id: Some(agent_item),
        user_items: seq![],
    }
}

fn starting(
    thread_id: &str,
    turn_id: &str,
    session_id: &str,
    agent_item_id: &str,
    now: i64,
) -> (r: HermesRunRecord)
    ensures
        r.view() == starting_record(thread_id@, turn_id@, session_id@, agent_item_id@, now),
{
    let text = String::new();
    assert(text@ =~= seq![]);
    let none: Vec<ThreadItem> = Vec::new();
    assert(crate::codex::thread::items(none@) =~= seq![]);
    HermesRunRecord {
        thread_id: owned(thread_id),
        turn_id: owned(turn_id),
        hermes_session_id: owned(session_id),
        run_id: None,
        status: HermesTurnStatus::Starting,
        created_at: now,
        updated_at: now,
        completed_at: None,
        error: None,
        accumulated_text: text,
        last_event_seq: None,
        agent_item_id: Some(owned(agent_item_id)),
        user_items: none,
    }
}

fn publication(method: &str, params: Json) -> (r: Publication)
    ensures
        r.view() == (PublicationV { method: method@, params: params.view() }),
{
    Publication { method: owned(method), params }
}

/// A turn that was opened.
pub struct OpenTurn {
    pub notify: Vec<Publication>,
    /// Session that the turn continues.
    pub session_id: String,
}

impl HermesBridge {
    /// Opens a turn: it is logged and active, clients are told of it and of the
    /// user's message, and the thread shows the prompt. The index has to be stored
    /// before the turn is recorded.
    pub fn handle_turn_start(
        &mut self,
        p: &TurnStartParams,
        turn_id: &str,
        user_item_id: &str,
        now: i64,
    ) -> (r: Result<OpenTurn, JsonRpcError>)
        ensures
            final(self).config == old(self).config,
            final(self).run_manager == old(self).run_manager,
            final(self).health_cache == old(self).health_cache,
            ({
                let thread = p.thread_id@;
                let before = old(self).index.view();
                let user_item = ItemV::UserMessage { id: user_item_id@, content: inputs(p.input@) };
                if before.dom().contains(thread) {
                    let session = before[thread].hermes_session_id;
                    let text = joined(text_parts(inputs(p.input@)), "\n"@);
                    let opened = turns_of(old(self).turns.view(), thread).push(
                        fresh_turn(turn_id@, TurnStatus::InProgress, Some(now)),
                    );
                    &&& r is Ok
                    &&& r->Ok_0.session_id@ == session
                    &&& publications(r->Ok_0.notify@) == start_publications(
                        thread,
                        turn_id@,
                        user_item,
                        now,
                    )
                    &&& final(self).turns.view() == old(self).turns.view().insert(
                        thread,
                        item_logged(opened, turn_id@, user_item),
                    )
                    &&& final(self).active() == old(self).active().insert(
                        thread,
                        ActiveV {
                            turn_id: turn_id@,
                            thread_id: thread,
                            hermes_session_id: session,
                            run_id: None,
                        },
                    )
                    &&& final(self).index.view() == before.insert(
                        thread,
                        after_turn(
                            before[thread],
                            None,
                            opt_text(p.model),
                            preview_of(text),
                            opt_text(p.cwd),
                            now,
                        ),
                    )
                } else {
                    &&& r is Err
                    &&& r->Err_0.code == INVALID_PARAMS
                    &&& r->Err_0.message@ == "thread not found"@
                    &&& final(self).turns == old(self).turns
                    &&& final(self).state == old(self).state
                    &&& final(self).index == old(self).index
                }
            }),
    {
        let thread_id = p.thread_id.as_str();
        let binding = match self.index.get_by_thread(thread_id) {
            Some(b) => b,
            None => {
                return Err(rpc_error(INVALID_PARAMS, "thread not found"));
            },
        };
        self.turns.start_logged_turn(thread_id, turn_id, now);
        self.activate(
            ActiveTurn {
                turn_id: owned(turn_id),
                thread_id: p.thread_id.clone(),
                hermes_session_id: binding.hermes_session_id.clone(),
                run_id: None,
            },
        );
        let started = TurnStartedNotification {
            thread_id: p.thread_id.clone(),
            turn: in_progress_turn(turn_id, now),
        };
        let item = ThreadItem::UserMessage {
            id: owned(user_item_id),
            content: copy_inputs(&p.input),
        };
        let item_started = ItemStartedNotification {
            item: item.copy(),
            thread_id: p.thread_id.clone(),
            turn_id: owned(turn_id),
            parent_item_id: None,
        };
        let item_completed = ItemCompletedNotification {
            item: item.copy(),
            thread_id: p.thread_id.clone(),
            turn_id: owned(turn_id),
            parent_item_id: None,
        };
        self.turns.push_logged_item(thread_id, turn_id, item);
        assert(self.turns.view() =~= old(self).turns.view().insert(
            thread_id@,
            item_logged(
                turns_of(old(self).turns.view(), thread_id@).push(
                    fresh_turn(turn_id@, TurnStatus::InProgress, Some(now)),
                ),
                turn_id@,
                item.view(),
            ),
        ));
        let a = publication("turn/started", started.to_json());
        let b = publication("item/started", item_started.to_json());
        let c = publication("item/completed", item_completed.to_json());
        let ghost (ga, gb, gc) = (a.view(), b.view(), c.view());
        let mut notify: Vec<Publication> = Vec::new();
        notify.push(a);
        notify.push(b);
        notify.push(c);
        assert(publications(notify@) =~= seq![ga, gb, gc]);
        let text = user_text(&p.input);
        self.index.update_after_turn(
            thread_id,
            None,
            opt_copy(&p.model),
            preview_for(text.as_str()),
            opt_copy(&p.cwd),
            now,
        );
        Ok(OpenTurn { notify, session_id: binding.hermes_session_id })
    }

    /// Records a turn before anyone is asked to carry it out, so that a client
    /// that reconnects never sees a turn that only this process knows.
    pub fn record_starting(
        &mut self,
        thread_id: &str,
        turn_id: &str,
        session_id: &str,
        agent_item_id: &str,
        now: i64,
    )
        ensures
            final(self).runs() == upserted(
                old(self).runs(),
                starting_record(thread_id@, turn_id@, session_id@, agent_item_id@, now),
            ),
            final(self).config == old(self).config,
            final(self).index == old(self).index,
            final(self).state == old(self).state,
            final(self).turns == old(self).turns,
            final(self).health_cache == old(self).health_cache,
            final(self).run_manager.event_store == old(self).run_manager.event_store,
            final(self).run_manager.active == old(self).run_manager.active,
            final(self).run_manager.client == old(self).run_manager.client,
    {
        let record = starting(thread_id, turn_id, session_id, agent_item_id, now);
        self.run_manager.run_store.upsert(record);
    }

    /// The run to ask the gateway for.
    pub fn run_request(&self, p: &TurnStartParams, session_id: &str) -> (r: CreateRunRequest)
        ensures
            r.input@ == joined(text_parts(inputs(p.input@)), "\n"@),
            opt_text(r.session_id) == Some(session_id@),
            opt_text(r.cwd) == or_else(
                opt_text(p.cwd),
                if self.index.view().dom().contains(p.thread_id@) {
                    self.index.view()[p.thread_id@].cwd
                } else {
                    None
                },
            ),
            r.model == p.model,
    {
        let cwd = match &p.cwd {
            Some(c) => Some(c.clone()),
            None => match self.index.get_by_thread(p.thread_id.as_str()) {
                Some(b) => b.cwd,
                None => None,
            },
        };
        CreateRunRequest {
            input: user_text(&p.input),
            session_id: Some(owned(session_id)),
            cwd,
            model: opt_copy(&p.model),
        }
    }

    /// Whether approval requests of a turn are answered without asking.
    pub fn auto_approves(p: &TurnStartParams) -> (r: bool)
        ensures
            r == (opt_approval(p.approval_policy) == Some(ApprovalV::Never)),
    {
        match &p.approval_policy {
            Some(AskForApproval::Never) => true,
            _ => false,
        }
    }

    /// Takes over a session that the gateway gave the run. Tells whether the index
    /// has to be stored.
    pub fn session_given(
        &mut self,
        p: &TurnStartParams,
        run: &CreateRunResponse,
        now: i64,
    ) -> (r: bool)
        ensures
            r == run.session_id is Some,
            final(self).index.view() == (if run.session_id is Some
                && old(self).index.view().dom().contains(p.thread_id@) {
                old(self).index.view().insert(
                    p.thread_id@,
                    after_turn(
                        old(self).index.view()[p.thread_id@],
                        opt_text(run.session_id),
                        opt_text(p.model),
                        None,
                        None,
                        now,
                    ),
                )
            } else {
                old(self).index.view()
            }),
            final(self).config == old(self).config,
            final(self).state == old(self).state,
            final(self).turns == old(self).turns,
            final(self).run_manager == old(self).run_manager,
            final(self).health_cache == old(self).health_cache,
    {
        match &run.session_id {
            Some(s) => {
                self.index.update_after_turn(
                    p.thread_id.as_str(),
                    Some(s.clone()),
                    opt_copy(&p.model),
                    None,
                    None,
                    now,
                );
                true
            },
            None => false,
        }
    }

    /// Takes note that the gateway accepted the run of a turn, and hands out the
    /// record with which its pump is started. A record that got lost is made up.
    pub fn run_accepted(
        &mut self,
        thread_id: &str,
        turn_id: &str,
        session_id: &str,
        agent_item_id: &str,
        run_id: &str,
        now: i64,
    ) -> (r: HermesRunRecord)
        ensures
            final(self).runs() == run_started(old(self).runs(), turn_id@, run_id@, now),
            r.view() == (if old(self).runs().by_turn.dom().contains(turn_id@) {
                marked_running(old(self).runs().by_turn[turn_id@], run_id@, now)
            } else {
                marked_running(
                    starting_record(thread_id@, turn_id@, session_id@, agent_item_id@, now),
                    run_id@,
                    now,
                )
            }),
            final(self).active() == old(self).active().insert(
                thread_id@,
                ActiveV {
                    turn_id: turn_id@,
                    thread_id: thread_id@,
                    hermes_session_id: session_id@,
                    run_id: Some(run_id@),
                },
            ),
            final(self).config == old(self).config,
            final(self).index == old(self).index,
            final(self).turns == old(self).turns,
            final(self).health_cache == old(self).health_cache,
            final(self).run_manager.event_store == old(self).run_manager.event_store,
            final(self).run_manager.active == old(self).run_manager.active,
            final(self).run_manager.client == old(self).run_manager.client,
    {
        self.activate(
            ActiveTurn {
                turn_id: owned(turn_id),
                thread_id: owned(thread_id),
                hermes_session_id: owned(session_id),
                run_id: Some(owned(run_id)),
            },
        );
        match self.run_manager.run_store.mark_running(turn_id, run_id, now) {
            Some(record) => record,
            None => {
                let mut record = starting(thread_id, turn_id, session_id, agent_item_id, now);
                record.run_id = Some(owned(run_id));
                record.status = HermesTurnStatus::Running;
                record
            },
        }
    }
}

/// Answers a request for a turn that is now running.
pub fn turn_running(turn_id: &str, now: i64) -> (r: Handled)
    ensures
        r.view() == answered(
            JsonV::object().with(
                "turn"@,
                turn_model(fresh_turn(turn_id@, TurnStatus::InProgress, Some(now))),
            ),
        ),
{
    let turn = in_progress_turn(turn_id, now);
    answer(Json::object().with("turn", turn.to_json()))
}

// ---------------------------------------------------------------------------
// The end of a turn that has no run
// ---------------------------------------------------------------------------
/// What clients are told at the end of a turn.
pub open spec fn end_publication(
    thread: Seq<char>,
    turn: Seq<char>,
    error: Option<Seq<char>>,
    now: i64,
) -> PublicationV {
    PublicationV {
        method: "turn/completed"@,
        params: JsonV::object()
            .with("threadId"@, JsonV::Str(thread))
            .with(
                "turn"@,
                turn_model(
                    TurnV {
                        error,
                        completed_at: Some(now),
                        ..fresh_turn(
                            turn,
                            if error is Some {
                                TurnStatus::Failed
                            } else {
                                TurnStatus::Completed
                            },
                            Some(now),
                        )
                    },
                ),
            ),
    }
}

/// What clients are told when a turn was answered in one piece.
pub open spec fn synthetic_publications(
    thread: Seq<char>,
    turn: Seq<char>,
    item: Seq<char>,
    text: Seq<char>,
    now: i64,
) -> Seq<PublicationV> {
    seq![
        PublicationV {
            method: "item/started"@,
            params: JsonV::object()
                .with("item"@, item_json(ItemV::AgentMessage { id: item, text: seq![] }))
                .with("threadId"@, JsonV::Str(thread))
                .with("turnId"@, JsonV::Str(turn)),
        },
        PublicationV {
            method: "item/agentMessage/delta"@,
            params: JsonV::object()
                .with("threadId"@, JsonV::Str(thread))
                .with("turnId"@, JsonV::Str(turn))
                .with("itemId"@, JsonV::Str(item))
                .with("delta"@, JsonV::Str(text)),
        },
        PublicationV {
            method: "item/completed"@,
            params: JsonV::object()
                .with("item"@, item_json(ItemV::AgentMessage { id: item, text }))
                .with("threadId"@, JsonV::Str(thread))
                .with("turnId"@, JsonV::Str(turn)),
        },
        end_publication(thread, turn, None, now),
    ]
}

/// The log with a turn at its end.
pub open spec fn log_ended(
    log: Map<Seq<char>, Seq<TurnV>>,
    thread: Seq<char>,
    turn: Seq<char>,
    error: Option<Seq<char>>,
    now: i64,
) -> Map<Seq<char>, Seq<TurnV>> {
    if log.dom().contains(thread) {
        log.insert(thread, end_logged(log[thread], turn, error, now))
    } else {
        log
    }
}

/// The log with an item in a turn.
pub open spec fn log_item(
    log: Map<Seq<char>, Seq<TurnV>>,
    thread: Seq<char>,
    turn: Seq<char>,
    item: ItemV,
) -> Map<Seq<char>, Seq<TurnV>> {
    if log.dom().contains(thread) {
        log.insert(thread, item_logged(log[thread], turn, item))
    } else {
        log
    }
}

/// The records with an outcome of a turn.
pub open spec fn runs_ended(
    s: RunsV,
    turn: Seq<char>,
    status: HermesTurnStatus,
    error: Option<Seq<char>>,
    text: Option<Seq<char>>,
    now: i64,
) -> RunsV {
    if s.by_turn.dom().contains(turn) {
        rewritten(s, turn, marked_terminal(s.by_turn[turn], status, error, text, now))
    } else {
        s
    }
}

impl HermesBridge {
    fn emit_turn_completed(
        &mut self,
        thread_id: &str,
        turn_id: &str,
        error: Option<String>,
        now: i64,
    ) -> (r: Publication)
        ensures
            r.view() == end_publication(thread_id@, turn_id@, opt_text(error), now),
            final(self).turns.view() == log_ended(
                old(self).turns.view(),
                thread_id@,
                turn_id@,
                opt_text(error),
                now,
            ),
            final(self).active() == old(self).active().remove(thread_id@),
            final(self).config == old(self).config,
            final(self).index == old(self).index,
            final(self).run_manager == old(self).run_manager,
            final(self).health_cache == old(self).health_cache,
    {
        let none: Vec<ThreadItem> = Vec::new();
        assert(items(none@) =~= seq![]);
        let turn = Turn {
            id: owned(turn_id),
            items: none,
            items_view: owned("full"),
            status: if error.is_some() {
                TurnStatus::Failed
            } else {
                TurnStatus::Completed
            },
            error: match &error {
                Some(message) => Some(TurnError { message: message.clone() }),
                None => None,
            },
            started_at: Some(now),
            completed_at: Some(now),
            duration_ms: None,
        };
        let n = TurnCompletedNotification { thread_id: owned(thread_id), turn };
        self.turns.complete_logged_turn(thread_id, turn_id, error, now);
        self.deactivate(thread_id);
        publication("turn/completed", n.to_json())
    }

    /// Ends a turn that could not be carried out: the failure is recorded, told
    /// and answered.
    pub fn turn_failed(
        &mut self,
        thread_id: &str,
        turn_id: &str,
        route: TurnRoute,
        error: &str,
        now: i64,
    ) -> (r: Handled)
        ensures
            ({
                let message = (match route {
                    TurnRoute::Api => "Hermes API error: "@,
                    TurnRoute::Cli => "Hermes CLI error: "@,
                }) + error@;
                &&& r.view() == (HandledV {
                    persist: false,
                    notify: seq![
                        end_publication(thread_id@, turn_id@, Some(message), now),
                    ],
                    reply: ReplyV::Refused(INTERNAL_ERROR, message),
                })
                &&& final(self).runs() == runs_ended(
                    old(self).runs(),
                    turn_id@,
                    HermesTurnStatus::Failed,
                    Some(message),
                    None,
                    now,
                )
                &&& final(self).turns.view() == log_ended(
                    old(self).turns.view(),
                    thread_id@,
                    turn_id@,
                    Some(message),
                    now,
                )
                &&& final(self).active() == old(self).active().remove(thread_id@)
                &&& final(self).config == old(self).config
                &&& final(self).index == old(self).index
                &&& final(self).health_cache == old(self).health_cache
                &&& final(self).run_manager.event_store == old(self).run_manager.event_store
                &&& final(self).run_manager.active == old(self).run_manager.active
                &&& final(self).run_manager.client == old(self).run_manager.client
            }),
    {
        let message = match route {
            TurnRoute::Api => join2("Hermes API error: ", error),
            TurnRoute::Cli => join2("Hermes CLI error: ", error),
        };
        self.run_manager.run_store.mark_terminal(
            turn_id,
            HermesTurnStatus::Failed,
            Some(message.clone()),
            None,
            now,
        );
        let p = self.emit_turn_completed(thread_id, turn_id, Some(message.clone()), now);
        let ghost gp = p;
        let mut notify: Vec<Publication> = Vec::new();
        notify.push(p);
        assert(publications(notify@) =~= seq![gp.view()]);
        Handled {
            persist: false,
            notify,
            reply: error_response(INTERNAL_ERROR, message.as_str()),
        }
    }

    /// Ends a turn that the program answered in one piece.
    pub fn cli_answered(
        &mut self,
        thread_id: &str,
        turn_id: &str,
        item_id: &str,
        output: &str,
        now: i64,
    ) -> (r: Handled)
        ensures
            r.view() == (HandledV {
                persist: false,
                notify: synthetic_publications(thread_id@, turn_id@, item_id@, output@, now),
                reply: ReplyV::Done(
                    JsonV::object().with(
                        "turn"@,
                        turn_model(
                            TurnV {
                                completed_at: Some(now),
                                ..fresh_turn(turn_id@, TurnStatus::Completed, Some(now))
                            },
                        ),
                    ),
                ),
            }),
            final(self).runs() == runs_ended(
                old(self).runs(),
                turn_id@,
                HermesTurnStatus::Completed,
                None,
                Some(output@),
                now,
            ),
            final(self).turns.view() == log_ended(
                log_item(
                    old(self).turns.view(),
                    thread_id@,
                    turn_id@,
                    ItemV::AgentMessage { id: item_id@, text: output@ },
                ),
                thread_id@,
                turn_id@,
                None,
                now,
            ),
            final(self).active() == old(self).active().remove(thread_id@),
            final(self).config == old(self).config,
            final(self).index == old(self).index,
            final(self).health_cache == old(self).health_cache,
            final(self).run_manager.event_store == old(self).run_manager.event_store,
            final(self).run_manager.active == old(self).run_manager.active,
            final(self).run_manager.client == old(self).run_manager.client,
    {
        self.run_manager.run_store.mark_terminal(
            turn_id,
            HermesTurnStatus::Completed,
            None,
            Some(owned(output)),
            now,
        );
        let empty = String::new();
        assert(empty@ =~= seq![]);
        let started = ItemStartedNotification {
            item: ThreadItem::AgentMessage { id: owned(item_id), text: empty },
            thread_id: owned(thread_id),
            turn_id: owned(turn_id),
            parent_item_id: None,
        };
        let delta = AgentMessageDeltaNotification {
            thread_id: owned(thread_id),
            turn_id: owned(turn_id),
            item_id: owned(item_id),
            delta: owned(output),
            parent_item_id: None,
        };
        let item = ThreadItem::AgentMessage { id: owned(item_id), text: owned(output) };
        let completed = ItemCompletedNotification {
            item: item.copy(),
            thread_id: owned(thread_id),
            turn_id: owned(turn_id),
            parent_item_id: None,
        };
        self.turns.push_logged_item(thread_id, turn_id, item);
        let a = publication("item/started", started.to_json());
        let b = publication("item/agentMessage/delta", delta.to_json());
        let c = publication("item/completed", completed.to_json());
        let d = self.emit_turn_completed(thread_id, turn_id, None, now);
        let ghost (ga, gb, gc, gd) = (a.view(), b.view(), c.view(), d.view());
        let mut notify: Vec<Publication> = Vec::new();
        notify.push(a);
        notify.push(b);
        notify.push(c);
        notify.push(d);
        assert(publications(notify@) =~= seq![ga, gb, gc, gd]);
        let turn = completed_turn(turn_id, now, now);
        Handled {
            persist: false,
            notify,
            reply: Ok(Json::object().with("turn", turn.to_json())),
        }
    }

    /// The run to stop when a client interrupts the turn of a thread. The turn is
    /// active no more; its end is told once the run has ended.
    pub fn handle_turn_interrupt(&mut self, thread_id: &str) -> (r: Option<String>)
        ensures
            opt_text(r) == (if old(self).active().dom().contains(thread_id@) {
                old(self).active()[thread_id@].run_id
            } else {
                None
            }),
            final(self).active() == old(self).active().remove(thread_id@),
            final(self).config == old(self).config,
            final(self).index == old(self).index,
            final(self).turns == old(self).turns,
            final(self).run_manager == old(self).run_manager,
    {
        match self.deactivate(thread_id) {
            Some(a) => a.run_id,
            None => None,
        }
    }
}

/// The program, the session and the working directory of a turn that the program
/// carries out.
pub struct CliCall {
    pub bin: String,
    pub session_id: Option<String>,
    pub cwd: Option<String>,
    pub text: String,
}

impl HermesBridge {
    /// How to call the program for a turn.
    pub fn cli_call(&self, p: &TurnStartParams) -> (r: CliCall)
        ensures
            ({
                let known = self.index.view().dom().contains(p.thread_id@);
                let b = self.index.view()[p.thread_id@];
                &&& r.text@ == joined(text_parts(inputs(p.input@)), "\n"@)
                &&& opt_text(r.cwd) == or_else(
                    opt_text(p.cwd),
                    if known {
                        b.cwd
                    } else {
                        None
                    },
                )
                &&& match self.config.mode {
                    HermesMode::Api { .. } => r.bin@ == "hermes"@ && r.session_id is None,
                    HermesMode::Cli { bin } => r.bin@ == (match bin {
                        Some(x) => x@,
                        None => "hermes"@,
                    }) && opt_text(r.session_id) == (if known {
                        Some(b.hermes_session_id)
                    } else {
                        None
                    }),
                    HermesMode::Auto { bin, .. } => r.bin@ == (match bin {
                        Some(x) => x@,
                        None => "hermes"@,
                    }) && opt_text(r.session_id) == (if known {
                        Some(b.hermes_session_id)
                    } else {
                        None
                    }),
                }
            }),
    {
        let binding = self.index.get_by_thread(p.thread_id.as_str());
        let session = match &binding {
            Some(b) => Some(b.hermes_session_id.clone()),
            None => None,
        };
        let cwd = match &p.cwd {
            Some(c) => Some(c.clone()),
            None => match &binding {
                Some(b) => opt_copy(&b.cwd),
                None => None,
            },
        };
        let text = user_text(&p.input);
        match &self.config.mode {
            HermesMode::Api { .. } => CliCall {
                bin: owned("hermes"),
                session_id: None,
                cwd,
                text,
            },
            HermesMode::Cli { bin } => CliCall {
                bin: match bin {
                    Some(x) => x.clone(),
                    None => owned("hermes"),
                },
                session_id: session,
                cwd,
                text,
            },
            HermesMode::Auto { bin, .. } => CliCall {
                bin: match bin {
                    Some(x) => x.clone(),
                    None => owned("hermes"),
                },
                session_id: session,
                cwd,
                text,
            },
        }
    }
}

// ---------------------------------------------------------------------------
// Commands
// ---------------------------------------------------------------------------
/// Time that a command gets if the client says nothing, in milliseconds.
pub const DEFAULT_COMMAND_TIMEOUT_MS: i64 = 30_000;

/// Longest time that a command gets, in milliseconds.
pub const LONGEST_COMMAND_TIMEOUT_MS: i64 = 300_000;

/// Bytes of output that are kept if the client says nothing.
pub const DEFAULT_COMMAND_OUTPUT_CAP: usize = 1_048_576;

/// Why a command is not executed, if it is not.
pub open spec fn command_refusal(p: CommandExecParams) -> Option<Seq<char>> {
    if p.command@.len() == 0 {
        Some("command/exec requires a non-empty command"@)
    } else if p.tty || p.stream_stdin || p.stream_stdout_stderr || p.process_id is Some {
        Some(
            "command/exec streaming and TTY modes are not supported by the Hermes bridge; use buffered exec"@,
        )
    } else {
        None
    }
}

/// The time that a command gets.
pub open spec fn command_timeout(p: CommandExecParams) -> Option<int> {
    if p.disable_timeout {
        None
    } else {
        let t = match p.timeout_ms {
            Some(t) => t as int,
            None => DEFAULT_COMMAND_TIMEOUT_MS as int,
        };
        Some(
            if t < 1 {
                1
            } else if t > LONGEST_COMMAND_TIMEOUT_MS {
                LONGEST_COMMAND_TIMEOUT_MS as int
            } else {
                t
            },
        )
    }
}

/// Decides whether a command is executed, and how long it may take.
pub fn plan_command(p: &CommandExecParams) -> (r: Result<Option<u64>, JsonRpcError>)
    ensures
        match command_refusal(*p) {
            Some(message) => r is Err && r->Err_0.code == INVALID_PARAMS && r->Err_0.message@
                == message,
            None => r is Ok && match r->Ok_0 {
                Some(t) => command_timeout(*p) == Some(t as int),
                None => command_timeout(*p) is None,
            },
        },
{
    if p.command.len() == 0 {
        return Err(rpc_error(INVALID_PARAMS, "command/exec requires a non-empty command"));
    }
    if p.tty || p.stream_stdin || p.stream_stdout_stderr || p.process_id.is_some() {
        return Err(
            rpc_error(
                INVALID_PARAMS,
                "command/exec streaming and TTY modes are not supported by the Hermes bridge; use buffered exec",
            ),
        );
    }
    if p.disable_timeout {
        return Ok(None);
    }
    let t: i64 = match p.timeout_ms {
        Some(t) => t,
        None => DEFAULT_COMMAND_TIMEOUT_MS,
    };
    let t: i64 = if t < 1 {
        1
    } else if t > LONGEST_COMMAND_TIMEOUT_MS {
        LONGEST_COMMAND_TIMEOUT_MS
    } else {
        t
    };
    Ok(Some(t as u64))
}

/// Output as the client gets it.
pub open spec fn shown_output(p: CommandExecParams, bytes: Seq<u8>) -> Seq<char> {
    if p.disable_output_cap {
        lossy(bytes)
    } else {
        truncated(
            lossy(bytes),
            match p.output_bytes_cap {
                Some(c) => c as nat,
                None => DEFAULT_COMMAND_OUTPUT_CAP as nat,
            },
        )
    }
}

/// The output of a command as the client gets it: decoded, and capped unless the
/// client does not want that.
pub fn show_output(p: &CommandExecParams, bytes: &[u8]) -> (r: String)
    ensures
        r@ == shown_output(*p, bytes@),
{
    let mut text = from_utf8_lossy(bytes);
    if !p.disable_output_cap {
        let cap: usize = match p.output_bytes_cap {
            Some(c) => c,
            None => DEFAULT_COMMAND_OUTPUT_CAP,
        };
        truncate_string(&mut text, cap);
    }
    text
}

/// Answers with the outcome of a command.
pub fn command_answer(
    p: &CommandExecParams,
    exit_code: Option<i32>,
    stdout: &[u8],
    stderr: &[u8],
) -> (r: Handled)
    ensures
        r.view() == answered(
            exec_json(
                match exit_code {
                    Some(c) => c as int,
                    None => -1,
                },
                shown_output(*p, stdout@),
                shown_output(*p, stderr@),
            ),
        ),
{
    let response = CommandExecResponse {
        exit_code: match exit_code {
            Some(c) => c,
            None => -1,
        },
        stdout: show_output(p, stdout),
        stderr: show_output(p, stderr),
    };
    answer(response.to_json())
}

/// Why a command that was accepted has no outcome.
pub enum CommandFailure {
    /// It did not end in time.
    TimedOut,
    /// It could not be started; the reason follows.
    NotStarted(String),
}

/// Refuses a command that has no outcome.
pub fn command_failed(why: &CommandFailure) -> (r: Handled)
    ensures
        r.view() == refused(
            INTERNAL_ERROR,
            match *why {
                CommandFailure::TimedOut => "command/exec timed out"@,
                CommandFailure::NotStarted(e) => "command/exec failed to spawn: "@ + e@,
            },
        ),
{
    match why {
        CommandFailure::TimedOut => refuse(INTERNAL_ERROR, "command/exec timed out"),
        CommandFailure::NotStarted(e) => refuse(
            INTERNAL_ERROR,
            join2("command/exec failed to spawn: ", e.as_str()).as_str(),
        ),
    }
}

// ---------------------------------------------------------------------------
// Fixed answers
// ---------------------------------------------------------------------------
/// The one model of the bridge.
pub fn hermes_model() -> (r: Model)
    ensures
        r.json() == hermes_model_json(),
{
    let mut efforts: Vec<ReasoningEffortOption> = Vec::new();
    efforts.push(
        ReasoningEffortOption {
            reasoning_effort: ReasoningEffort::Medium,
            description: owned("Default Hermes reasoning effort"),
        },
    );
    let mut modalities: Vec<String> = Vec::new();
    modalities.push(owned("text"));
    let tiers: Vec<ModelServiceTier> = Vec::new();
    proof {
        assert(efforts@.map_values(|x: ReasoningEffortOption| x.json()) =~= seq![
            effort_json(ReasoningEffort::Medium, "Default Hermes reasoning effort"@),
        ]);
        assert(modalities@.map_values(|x: String| JsonV::Str(x@)) =~= seq![JsonV::Str("text"@)]);
        assert(tiers@.map_values(|x: ModelServiceTier| x.json()) =~= seq![]);
    }
    Model {
        id: owned("hermes-agent"),
        display_name: owned("Hermes Agent"),
        description: owned("Hermes Agent via Alleycat bridge"),
        supported_reasoning_efforts: efforts,
        default_reasoning_effort: ReasoningEffort::Medium,
        input_modalities: modalities,
        service_tiers: tiers,
        is_default: true,
    }
}

/// The wire form of the one model of the bridge.
pub open spec fn hermes_model_json() -> JsonV {
    JsonV::object()
        .with("id"@, JsonV::Str("hermes-agent"@))
        .with("model"@, JsonV::Str("hermes-agent"@))
        .with("upgrade"@, JsonV::Null)
        .with("upgradeInfo"@, JsonV::Null)
        .with("availabilityNux"@, JsonV::Null)
        .with("displayName"@, JsonV::Str("Hermes Agent"@))
        .with("description"@, JsonV::Str("Hermes Agent via Alleycat bridge"@))
        .with("hidden"@, JsonV::Bool(false))
        .with(
            "supportedReasoningEfforts"@,
            JsonV::Arr(
                seq![
                    effort_json(ReasoningEffort::Medium, "Default Hermes reasoning effort"@),
                ],
            ),
        )
        .with("defaultReasoningEffort"@, JsonV::Str("medium"@))
        .with("inputModalities"@, JsonV::Arr(seq![JsonV::Str("text"@)]))
        .with("supportsPersonality"@, JsonV::Bool(false))
        .with("additionalSpeedTiers"@, JsonV::Arr(seq![]))
        .with("serviceTiers"@, JsonV::Arr(seq![]))
        .with("isDefault"@, JsonV::Bool(true))
}

/// Introduces the bridge to a client: its version, the directory of its data, and
/// the operating system that it runs on.
pub fn initialize(version: &str, home: &str, os: &str) -> (r: Handled)
    ensures
        r.view() == answered(
            JsonV::object()
                .with("userAgent"@, JsonV::Str("hermes-bridge/"@ + version@))
                .with("codexHome"@, JsonV::Str(home@))
                .with("platformFamily"@, JsonV::Str("linux"@))
                .with("platformOs"@, JsonV::Str(os@)),
        ),
{
    answer(
        Json::object()
            .with("userAgent", Json::Str(join2("hermes-bridge/", version)))
            .with("codexHome", Json::text(home))
            .with("platformFamily", Json::text("linux"))
            .with("platformOs", Json::text(os)),
    )
}

/// The file that a configuration write names.
pub open spec fn written_file(params: JsonV) -> Seq<char> {
    match params.str_at("filePath"@) {
        Some(f) => f,
        None => "hermes-bridge"@,
    }
}

/// What the bridge answers by itself, for methods that need no thread, turn or
/// command.
pub open spec fn fixed_answer(m: Method, params: JsonV, now: i64) -> Option<HandledV> {
    match m {
        Method::ThreadCompactStart => Some(
            refused(
                METHOD_NOT_FOUND,
                "thread/compact/start is not supported by Hermes bridge"@,
            ),
        ),
        Method::ThreadRollback => Some(
            refused(METHOD_NOT_FOUND, "thread/rollback is not supported by Hermes bridge"@),
        ),
        Method::ReviewStart => Some(
            refused(METHOD_NOT_FOUND, "review/start is not supported by the Hermes backend"@),
        ),
        Method::TurnSteer => Some(answered(JsonV::object())),
        Method::ThreadBackgroundTerminalsClean => Some(answered(JsonV::object())),
        Method::ModelList => Some(
            answered(
                JsonV::object()
                    .with("data"@, JsonV::Arr(seq![hermes_model_json()]))
                    .with("nextCursor"@, JsonV::Null),
            ),
        ),
        Method::AccountRead => Some(answered(key_account())),
        Method::AccountRateLimitsRead => Some(answered(no_rate_limits())),
        Method::AccountLoginStart => Some(answered(key_login())),
        Method::AccountLoginCancel => Some(answered(no_login())),
        Method::AccountLogout => Some(answered(JsonV::object())),
        Method::ConfigRead => Some(
            answered(
                JsonV::object()
                    .with(
                        "config"@,
                        JsonV::object()
                            .with("model_provider"@, JsonV::Str("hermes-agent"@))
                            .with("model"@, JsonV::Str("hermes-agent"@)),
                    )
                    .with("origins"@, JsonV::object())
                    .with("layers"@, JsonV::Null),
            ),
        ),
        Method::ConfigValueWrite => Some(
            answered(config_written(decimal_int(now as int), written_file(params))),
        ),
        Method::ConfigBatchWrite => Some(
            answered(config_written(decimal_int(now as int), written_file(params))),
        ),
        Method::ConfigRequirementsRead => Some(answered(JsonV::object())),
        Method::McpServerStatusList => Some(answered(empty_page())),
        Method::ConfigMcpServerReload => Some(answered(JsonV::object())),
        Method::McpServerOauthLogin => Some(
            answered(JsonV::object().with("authorizationUrl"@, JsonV::Str(seq![]))),
        ),
        Method::SkillsList => Some(answered(JsonV::object().with("data"@, JsonV::Arr(seq![])))),
        Method::SkillsRemoteList => Some(
            answered(JsonV::object().with("data"@, JsonV::Arr(seq![]))),
        ),
        Method::SkillsRemoteExport => Some(answered(JsonV::object())),
        Method::SkillsConfigWrite => Some(
            answered(skill_enabled(params.bool_at("enabled"@) != Some(false))),
        ),
        Method::CommandExecWrite => Some(answered(JsonV::object())),
        Method::CommandExecTerminate => Some(answered(JsonV::object())),
        Method::CommandExecResize => Some(answered(JsonV::object())),
        Method::MockExperimentalMethod => Some(answered(JsonV::object())),
        Method::ExperimentalFeatureList => Some(answered(empty_page())),
        Method::CollaborationModeList => Some(
            answered(JsonV::object().with("data"@, JsonV::Arr(seq![]))),
        ),
        Method::FeedbackUpload => Some(answered(JsonV::object())),
        _ => None,
    }
}

fn only_data() -> (j: Json)
    ensures
        j.view() == JsonV::object().with("data"@, JsonV::Arr(seq![])),
{
    Json::object().with("data", Json::empty_array())
}

fn written(params: &Json, now: i64) -> (r: Handled)
    ensures
        r.view() == answered(
            config_written(decimal_int(now as int), written_file(params.view())),
        ),
{
    let file = match params.str_at("filePath") {
        Some(f) => owned(f),
        None => owned("hermes-bridge"),
    };
    answer(config_written_json(decimal_i64(now).as_str(), file.as_str()))
}

/// Answers the methods that need no thread, turn or command.
pub fn answer_fixed(m: Method, params: &Json, now: i64) -> (r: Option<Handled>)
    ensures
        match r {
            Some(h) => fixed_answer(m, params.view(), now) == Some(h.view()),
            None => fixed_answer(m, params.view(), now) is None,
        },
{
    match m {
        Method::ThreadCompactStart => Some(
            refuse(
                METHOD_NOT_FOUND,
                "thread/compact/start is not supported by Hermes bridge",
            ),
        ),
        Method::ThreadRollback => Some(
            refuse(METHOD_NOT_FOUND, "thread/rollback is not supported by Hermes bridge"),
        ),
        Method::ReviewStart => Some(
            refuse(METHOD_NOT_FOUND, "review/start is not supported by the Hermes backend"),
        ),
        Method::TurnSteer => Some(answer(Json::object())),
        Method::ThreadBackgroundTerminalsClean => Some(answer(Json::object())),
        Method::ModelList => {
            let mut models: Vec<Model> = Vec::new();
            models.push(hermes_model());
            assert(models@.map_values(|x: Model| x.json()) =~= seq![hermes_model_json()]);
            Some(
                answer(
                    Json::object()
                        .with("data", list_to_json(&models))
                        .with("nextCursor", Json::Null),
                ),
            )
        },
        Method::AccountRead => Some(answer(key_account_json())),
        Method::AccountRateLimitsRead => Some(answer(no_rate_limits_json())),
        Method::AccountLoginStart => Some(answer(key_login_json())),
        Method::AccountLoginCancel => Some(answer(no_login_json())),
        Method::AccountLogout => Some(answer(Json::object())),
        Method::ConfigRead => Some(
            answer(
                Json::object()
                    .with(
                        "config",
                        Json::object()
                            .with("model_provider", Json::text("hermes-agent"))
                            .with("model", Json::text("hermes-agent")),
                    )
                    .with("origins", Json::object())
                    .with("layers", Json::Null),
            ),
        ),
        Method::ConfigValueWrite => Some(written(params, now)),
        Method::ConfigBatchWrite => Some(written(params, now)),
        Method::ConfigRequirementsRead => Some(answer(Json::object())),
        Method::McpServerStatusList => Some(answer(empty_page_json())),
        Method::ConfigMcpServerReload => Some(answer(Json::object())),
        Method::McpServerOauthLogin => {
            let url = String::new();
            assert(url@ =~= seq![]);
            Some(answer(Json::object().with("authorizationUrl", Json::Str(url))))
        },
        Method::SkillsList => Some(answer(only_data())),
        Method::SkillsRemoteList => Some(answer(only_data())),
        Method::SkillsRemoteExport => Some(answer(Json::object())),
        Method::SkillsConfigWrite => {
            let enabled = match params.bool_at("enabled") {
                Some(b) => b,
                None => true,
            };
            Some(answer(skill_enabled_json(enabled)))
        },
        Method::CommandExecWrite => Some(answer(Json::object())),
        Method::CommandExecTerminate => Some(answer(Json::object())),
        Method::CommandExecResize => Some(answer(Json::object())),
        Method::MockExperimentalMethod => Some(answer(Json::object())),
        Method::ExperimentalFeatureList => Some(answer(empty_page_json())),
        Method::CollaborationModeList => Some(answer(only_data())),
        Method::FeedbackUpload => Some(answer(Json::object())),
        _ => None,
    }
}

/// Where a request goes.
pub enum Dispatch {
    /// It is answered.
    Done(Handled),
    /// It needs its thread, its turn or its command.
    Needs(Method),
}

/// Finds out where a request goes: a method that nobody knows is refused.
pub fn dispatch(method: &str, params: &Json, now: i64) -> (r: Dispatch)
    ensures
        match r {
            Dispatch::Needs(m) => m.name() == method@ && fixed_answer(m, params.view(), now)
                is None,
            Dispatch::Done(h) => {
                ||| exists|m: Method| #[trigger]
                    m.name() == method@ && fixed_answer(m, params.view(), now) == Some(h.view())
                ||| (forall|m: Method| #[trigger] m.name() != method@) && h.view() == refused(
                    METHOD_NOT_FOUND,
                    "Method not found: "@ + method@,
                )
            },
        },
{
    match Method::of(method) {
        Some(m) => match answer_fixed(m, params, now) {
            Some(h) => {
                assert(m.name() == method@);
                Dispatch::Done(h)
            },
            None => Dispatch::Needs(m),
        },
        None => Dispatch::Done(
            refuse(METHOD_NOT_FOUND, join2("Method not found: ", method).as_str()),
        ),
    }
}

// ---------------------------------------------------------------------------
// Laws
// ---------------------------------------------------------------------------
/// A turn that was opened, or accepted by the gateway, is found by interrupting
/// its thread, and a turn that ended is not.
pub proof fn law_interrupt_finds_the_run(
    active: Map<Seq<char>, ActiveV>,
    thread: Seq<char>,
    a: ActiveV,
)
    ensures
        active.insert(thread, a).dom().contains(thread),
        active.insert(thread, a)[thread].run_id == a.run_id,
        !active.insert(thread, a).remove(thread).dom().contains(thread),
{
}

/// The automatic mode is the gateway's while it is healthy and the program's
/// otherwise; the other modes do not depend on health.
pub proof fn law_routes(api_base: String, bin: Option<String>, healthy: bool)
    ensures
        route_of(HermesMode::Auto { api_base, bin }, true) == route_of(
            HermesMode::Api { api_base },
            healthy,
        ),
        route_of(HermesMode::Auto { api_base, bin }, false) == route_of(
            HermesMode::Cli { bin },
            healthy,
        ),
{
}

} // verus!
