//! The two optimization workflows as data: each is a fixed schedule of
//! progress checkpoints, every checkpoint carrying the label to
//! announce, the percentage reached, and the best-effort action to run
//! after announcing it. The caller walks the schedule in order,
//! announces each event and performs its action; failures of the
//! best-effort actions are absorbed, and only the configuration patch
//! reports back, through the result messages at the end of this module.
use crate::patch::CfgError;
use vstd::prelude::*;
use vstd::string::StringExecFns;

verus! {

/// The request a caller hands in: the name of the tuning profile.
pub struct OptimizeOptions {
    pub mode: String,
}

/// One announcement to the observer of the game-profile workflow.
pub struct ProgressEvent {
    pub step: String,
    pub progress: u32,
}

/// One announcement to the observer of the network workflow.
pub struct NetworkProgressEvent {
    pub step: String,
    pub progress: u32,
}

/// A best-effort step of the game-profile workflow.
#[derive(Clone, Copy, PartialEq, Eq, Structural, Debug)]
pub enum OptimizeAction {
    CleanTempFolders,
    SetHighPerformancePlan,
    ConfigurePriorityAndOverlays,
    PatchGameConfig,
}

/// A best-effort step of the network workflow.
#[derive(Clone, Copy, PartialEq, Eq, Structural, Debug)]
pub enum NetworkAction {
    FlushDns,
    TuneTcp,
    DisableThrottling,
}

/// One checkpoint of the game-profile workflow: announce the event,
/// then run the action, where one is due.
pub struct OptimizeCheckpoint {
    pub event: ProgressEvent,
    pub action: Option<OptimizeAction>,
}

/// One checkpoint of the network workflow.
pub struct NetworkCheckpoint {
    pub event: NetworkProgressEvent,
    pub action: Option<NetworkAction>,
}

/// The fixed schedule of the game-profile workflow: temp-folder purge,
/// power plan, priority and overlays, then the configuration patch,
/// with the percentage announced before each step. Percentages never
/// decrease and end at one hundred.
pub fn optimize_plan() -> (r: Vec<OptimizeCheckpoint>)
    ensures
        r@.len() == 6,
        r@[0].event.progress == 10 && r@[0].action is None,
        r@[0].event.step@ == "Iniciando otimização..."@,
        r@[1].event.progress == 20 && r@[1].action == Some(OptimizeAction::CleanTempFolders),
        r@[1].event.step@ == "Limpando arquivos temporários..."@,
        r@[2].event.progress == 40 && r@[2].action == Some(
            OptimizeAction::SetHighPerformancePlan,
        ),
        r@[2].event.step@ == "Ativando modo de alto desempenho..."@,
        r@[3].event.progress == 60 && r@[3].action == Some(
            OptimizeAction::ConfigurePriorityAndOverlays,
        ),
        r@[3].event.step@ == "Configurando prioridade e overlays..."@,
        r@[4].event.progress == 80 && r@[4].action == Some(OptimizeAction::PatchGameConfig),
        r@[4].event.step@ == "Ajustando configurações gráficas do jogo..."@,
        r@[5].event.progress == 100 && r@[5].action is None,
        r@[5].event.step@ == "Otimização concluída!"@,
        forall|i: int, j: int|
            0 <= i <= j < r@.len() ==> r@[i].event.progress <= r@[j].event.progress,
        r@[r@.len() - 1].event.progress == 100,
{
    let mut r: Vec<OptimizeCheckpoint> = Vec::new();
    r.push(OptimizeCheckpoint {
        event: ProgressEvent { step: "Iniciando otimização...".to_owned(), progress: 10 },
        action: None,
    });
    r.push(OptimizeCheckpoint {
        event: ProgressEvent {
            step: "Limpando arquivos temporários...".to_owned(),
            progress: 20,
        },
        action: Some(OptimizeAction::CleanTempFolders),
    });
    r.push(OptimizeCheckpoint {
        event: ProgressEvent {
            step: "Ativando modo de alto desempenho...".to_owned(),
            progress: 40,
        },
        action: Some(OptimizeAction::SetHighPerformancePlan),
    });
    r.push(OptimizeCheckpoint {
        event: ProgressEvent {
            step: "Configurando prioridade e overlays...".to_owned(),
            progress: 60,
        },
        action: Some(OptimizeAction::ConfigurePriorityAndOverlays),
    });
    r.push(OptimizeCheckpoint {
        event: ProgressEvent {
            step: "Ajustando configurações gráficas do jogo...".to_owned(),
            progress: 80,
        },
        action: Some(OptimizeAction::PatchGameConfig),
    });
    r.push(OptimizeCheckpoint {
        event: ProgressEvent { step: "Otimização concluída!".to_owned(), progress: 100 },
        action: None,
    });
    r
}

/// The fixed schedule of the network workflow: resolver-cache flush,
/// TCP tuning, then throttling removal, announced the same way.
pub fn network_plan() -> (r: Vec<NetworkCheckpoint>)
    ensures
        r@.len() == 5,
        r@[0].event.progress == 10 && r@[0].action is None,
        r@[0].event.step@ == "Iniciando otimização de rede..."@,
        r@[1].event.progress == 30 && r@[1].action == Some(NetworkAction::FlushDns),
        r@[1].event.step@ == "Limpando cache DNS..."@,
        r@[2].event.progress == 60 && r@[2].action == Some(NetworkAction::TuneTcp),
        r@[2].event.step@ == "Melhorando algoritmos TCP..."@,
        r@[3].event.progress == 80 && r@[3].action == Some(NetworkAction::DisableThrottling),
        r@[3].event.step@ == "Desabilitando limite de largura de banda..."@,
        r@[4].event.progress == 100 && r@[4].action is None,
        r@[4].event.step@ == "Sua rede foi Otimizada para jogos!"@,
        forall|i: int, j: int|
            0 <= i <= j < r@.len() ==> r@[i].event.progress <= r@[j].event.progress,
        r@[r@.len() - 1].event.progress == 100,
{
    let mut r: Vec<NetworkCheckpoint> = Vec::new();
    r.push(NetworkCheckpoint {
        event: NetworkProgressEvent {
            step: "Iniciando otimização de rede...".to_owned(),
            progress: 10,
        },
        action: None,
    });
    r.push(NetworkCheckpoint {
        event: NetworkProgressEvent { step: "Limpando cache DNS...".to_owned(), progress: 30 },
        action: Some(NetworkAction::FlushDns),
    });
    r.push(NetworkCheckpoint {
        event: NetworkProgressEvent {
            step: "Melhorando algoritmos TCP...".to_owned(),
            progress: 60,
        },
        action: Some(NetworkAction::TuneTcp),
    });
    r.push(NetworkCheckpoint {
        event: NetworkProgressEvent {
            step: "Desabilitando limite de largura de banda...".to_owned(),
            progress: 80,
        },
        action: Some(NetworkAction::DisableThrottling),
    });
    r.push(NetworkCheckpoint {
        event: NetworkProgressEvent {
            step: "Sua rede foi Otimizada para jogos!".to_owned(),
            progress: 100,
        },
        action: None,
    });
    r
}


/// The name of the observer channel the game-profile workflow
/// announces on; distinct from the network workflow's channel.
pub fn optimize_event_name() -> (r: &'static str)
    ensures
        r@ == "optimization-progress"@,
{
    "optimization-progress"
}

/// The name of the observer channel the network workflow announces on.
pub fn network_event_name() -> (r: &'static str)
    ensures
        r@ == "network-optimization-progress"@,
{
    "network-optimization-progress"
}

/// The text of a patcher failure.
pub open spec fn cfg_error_text(e: CfgError) -> Seq<char> {
    match e {
        CfgError::NotFound => "game.cfg não encontrado. O jogo já foi aberto pelo menos uma vez?"@,
        CfgError::Io => "falha de E/S ao ler ou gravar o game.cfg."@,
    }
}

impl CfgError {
    /// The text of this failure, as the result messages embed it.
    pub fn text(&self) -> (r: &'static str)
        ensures
            r@ == cfg_error_text(*self),
    {
        match self {
            CfgError::NotFound => "game.cfg não encontrado. O jogo já foi aberto pelo menos uma vez?",
            CfgError::Io => "falha de E/S ao ler ou gravar o game.cfg.",
        }
    }
}

/// The final text of the game-profile workflow. The workflow itself
/// always reports success; a failure of the configuration patch is
/// downgraded to an advisory message that embeds the failure's text.
pub fn optimize_result_message(cfg_result: &Result<(), CfgError>) -> (r: String)
    ensures
        cfg_result is Ok ==> r@ == "Configurações aplicadas com sucesso."@,
        cfg_result matches Err(e) ==> r@
            == "Otimizações do sistema aplicadas, mas houve erro no game.cfg: "@ + cfg_error_text(
            *e,
        ),
{
    match cfg_result {
        Ok(_) => "Configurações aplicadas com sucesso.".to_owned(),
        Err(e) => {
            let mut m = "Otimizações do sistema aplicadas, mas houve erro no game.cfg: ".to_owned();
            m.append(e.text());
            m
        },
    }
}

/// The final outcome of the restore workflow: a restore failure is the
/// one failure that is propagated, as its own text.
pub fn restore_result_message(restore_result: &Result<(), CfgError>) -> (r: Result<
    String,
    String,
>)
    ensures
        restore_result is Ok <==> r is Ok,
        r matches Ok(m) ==> m@ == "Configurações restauradas com sucesso."@,
        restore_result matches Err(e) ==> r matches Err(m) && m@ == cfg_error_text(*e),
{
    match restore_result {
        Ok(_) => Ok("Configurações restauradas com sucesso.".to_owned()),
        Err(e) => Err(e.text().to_owned()),
    }
}

/// The fixed final text of the network workflow.
pub fn network_result_message() -> (r: String)
    ensures
        r@ == "Network optimizations applied."@,
{
    "Network optimizations applied.".to_owned()
}

} // verus!
