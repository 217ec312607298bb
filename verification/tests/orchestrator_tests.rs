use game_tuner::orchestrator::{
    network_event_name, network_plan, network_result_message, optimize_event_name,
    optimize_plan, optimize_result_message, restore_result_message, NetworkAction,
    OptimizeAction,
};
use game_tuner::patch::{CfgError, ConfigPatcher};
use game_tuner::profile::parse_mode;

#[test]
fn optimize_plan_schedule() {
    let plan = optimize_plan();
    assert_eq!(plan.len(), 6);
    let progress: Vec<u32> = plan.iter().map(|c| c.event.progress).collect();
    assert_eq!(progress, vec![10, 20, 40, 60, 80, 100]);
    assert!(plan[0].action.is_none());
    assert_eq!(plan[1].action, Some(OptimizeAction::CleanTempFolders));
    assert_eq!(plan[2].action, Some(OptimizeAction::SetHighPerformancePlan));
    assert_eq!(plan[3].action, Some(OptimizeAction::ConfigurePriorityAndOverlays));
    assert_eq!(plan[4].action, Some(OptimizeAction::PatchGameConfig));
    assert!(plan[5].action.is_none());
    assert_eq!(plan[0].event.step, "Iniciando otimização...");
    assert_eq!(plan[5].event.step, "Otimização concluída!");
    // Progress never decreases and ends complete.
    for w in progress.windows(2) {
        assert!(w[0] <= w[1]);
    }
    assert_eq!(*progress.last().unwrap(), 100);
}

#[test]
fn network_plan_schedule() {
    let plan = network_plan();
    assert_eq!(plan.len(), 5);
    let progress: Vec<u32> = plan.iter().map(|c| c.event.progress).collect();
    assert_eq!(progress, vec![10, 30, 60, 80, 100]);
    assert!(plan[0].action.is_none());
    assert_eq!(plan[1].action, Some(NetworkAction::FlushDns));
    assert_eq!(plan[2].action, Some(NetworkAction::TuneTcp));
    assert_eq!(plan[3].action, Some(NetworkAction::DisableThrottling));
    assert!(plan[4].action.is_none());
    for w in progress.windows(2) {
        assert!(w[0] <= w[1]);
    }
    assert_eq!(*progress.last().unwrap(), 100);
}

#[test]
fn optimize_succeeds_with_advisory_message_when_config_is_missing() {
    // The game-profile workflow on a machine without the config file:
    // the patch fails, the workflow still reports success, with the
    // failure's text embedded.
    let mut p = ConfigPatcher::new(None);
    let r = p.apply(parse_mode("competitive"));
    assert_eq!(r, Err(CfgError::NotFound));
    let message = optimize_result_message(&r);
    assert_eq!(
        message,
        "Otimizações do sistema aplicadas, mas houve erro no game.cfg: game.cfg não encontrado. O jogo já foi aberto pelo menos uma vez?"
    );
}

#[test]
fn optimize_success_message() {
    let mut p = ConfigPatcher::new(Some(b"Width=1920\r\n".to_vec()));
    let r = p.apply(parse_mode("max_fps"));
    assert_eq!(r, Ok(()));
    assert_eq!(optimize_result_message(&r), "Configurações aplicadas com sucesso.");
}

#[test]
fn restore_messages() {
    let ok = restore_result_message(&Ok(()));
    assert_eq!(ok, Ok("Configurações restauradas com sucesso.".to_string()));
    let err = restore_result_message(&Err(CfgError::NotFound));
    assert_eq!(
        err,
        Err("game.cfg não encontrado. O jogo já foi aberto pelo menos uma vez?".to_string())
    );
}

#[test]
fn network_message() {
    assert_eq!(network_result_message(), "Network optimizations applied.");
}

#[test]
fn workflows_announce_on_distinct_channels() {
    assert_eq!(optimize_event_name(), "optimization-progress");
    assert_eq!(network_event_name(), "network-optimization-progress");
    assert_ne!(optimize_event_name(), network_event_name());
}

#[test]
fn io_failure_message_is_embedded() {
    let message = optimize_result_message(&Err(CfgError::Io));
    assert_eq!(
        message,
        "Otimizações do sistema aplicadas, mas houve erro no game.cfg: falha de E/S ao ler ou gravar o game.cfg."
    );
    let restore = restore_result_message(&Err(CfgError::Io));
    assert_eq!(restore, Err("falha de E/S ao ler ou gravar o game.cfg.".to_string()));
}
