use cacsi_driver::identity::IdentityService;
use cacsi_driver::monitor::{renewal_decision, CertificateMonitor, CycleStep, RenewalCycle, RenewalDecision};
use cacsi_driver::registry::{needs_renewal_at, CertificateInfo, CertificateManager};

fn info(id: &str, nb: i64, na: i64) -> CertificateInfo {
    CertificateInfo { cert_id: id.to_string(), mount_path: format!("/mnt/{}", id), not_before: nb, not_after: na }
}

#[test]
fn renewal_due_below_a_fifth_of_lifetime() {
    // lifetime 1000: due when fewer than 200 seconds remain
    assert!(!needs_renewal_at(0, 1000, 800));
    assert!(needs_renewal_at(0, 1000, 801));
    assert!(!needs_renewal_at(0, 1000, 0));
    assert!(needs_renewal_at(0, 1000, 2000));
    assert!(!needs_renewal_at(0, 10, 7));
    assert!(needs_renewal_at(0, 10, 9));
}

#[test]
fn renewal_at_extreme_instants_does_not_overflow() {
    assert!(!needs_renewal_at(i64::MIN, i64::MAX, i64::MIN));
    assert!(needs_renewal_at(i64::MIN, i64::MAX, i64::MAX));
}

#[test]
fn registry_register_unregister() {
    let mut m = CertificateManager::new("/base".to_string(), "svc:1".to_string());
    m.register_certificate("a".to_string(), "/mnt/a".to_string(), 1, 2);
    m.register_certificate("b".to_string(), "/mnt/b".to_string(), 3, 4);
    m.register_certificate("a".to_string(), "/mnt/a".to_string(), 5, 6);
    let mut all = m.get_all_certificates();
    all.sort_by(|x, y| x.cert_id.cmp(&y.cert_id));
    assert_eq!(all.len(), 2);
    assert_eq!(all[0].not_before, 5);
    m.unregister_certificate(&"a".to_string());
    m.unregister_certificate(&"missing".to_string());
    let all = m.get_all_certificates();
    assert_eq!(all.len(), 1);
    assert_eq!(all[0].cert_id, "b");
}

#[test]
fn service_endpoint_gets_scheme() {
    let m = CertificateManager::new("/b".to_string(), "cacsi-service:50051".to_string());
    assert_eq!(m.service_endpoint(), "http://cacsi-service:50051");
    let m = CertificateManager::new("/b".to_string(), "https://x:1".to_string());
    assert_eq!(m.service_endpoint(), "https://x:1");
    let m = CertificateManager::new("/b".to_string(), "http://y".to_string());
    assert_eq!(m.service_endpoint(), "http://y");
}

#[test]
fn monitor_decisions() {
    let day = 86400;
    let now = 1_000_000_000;
    assert_eq!(renewal_decision(&info("due", now - 7 * day, now + day), now), RenewalDecision::Renew);
    assert_eq!(
        renewal_decision(&info("soon", now - 100, now + 2 * day), now),
        RenewalDecision::ExpiringSoon { remaining_seconds: 2 * day as i128 }
    );
    assert_eq!(renewal_decision(&info("ok", now - day, now + 6 * day), now), RenewalDecision::Healthy);
    assert_eq!(renewal_decision(&info("later", now - day, now + 2 * day + 1), now), RenewalDecision::Healthy);
}

#[test]
fn monitor_plan_and_record() {
    let monitor = CertificateMonitor::new();
    assert_eq!(monitor.check_interval_secs(), 300);
    assert_eq!(monitor.renewal_validity_days(), 7);
    let mut m = CertificateManager::new("/b".to_string(), "svc".to_string());
    m.register_certificate("a".to_string(), "/mnt/a".to_string(), 0, 1000);
    let snapshot = m.get_all_certificates();
    let plan = monitor.plan_renewals(&snapshot, 900);
    assert_eq!(plan, vec![RenewalDecision::Renew]);
    monitor.record_renewal(&mut m, &snapshot[0], 900, 900 + 7 * 86400);
    let after = m.get_all_certificates();
    assert_eq!(after[0].not_before, 900);
    assert_eq!(after[0].mount_path, "/mnt/a");
}

#[test]
fn identity_reports_plugin() {
    let id = IdentityService::new();
    assert_eq!(id.get_plugin_info(), ("csi.k8s.cacsi-driver".to_string(), "0.1.0".to_string()));
    assert!(id.get_plugin_capabilities().is_empty());
    assert!(id.probe());
}

#[test]
fn renewal_cycle_goes_on_after_a_failure() {
    let monitor = CertificateMonitor::new();
    let mut m = CertificateManager::new("/b".to_string(), "svc".to_string());
    m.register_certificate("a".to_string(), "/mnt/a".to_string(), 0, 1000);
    m.register_certificate("b".to_string(), "/mnt/b".to_string(), 0, 1000);
    m.register_certificate("c".to_string(), "/mnt/c".to_string(), 0, 1_000_000_000);
    let mut cycle = RenewalCycle::scan(&monitor, &m, 900);
    assert_eq!(cycle.len(), 3);
    let mut renew_steps = Vec::new();
    let mut first = true;
    loop {
        match cycle.next_step() {
            CycleStep::Done => break,
            CycleStep::Warn { .. } => panic!("no warning expected"),
            CycleStep::Renew { index } => {
                renew_steps.push(cycle.certificate(index).cert_id.clone());
                let window = if first { None } else { Some((900, 2000)) };
                first = false;
                cycle.finish_renewal(&monitor, &mut m, index, window);
            }
        }
    }
    renew_steps.sort();
    assert_eq!(renew_steps, vec!["a".to_string(), "b".to_string()]);
    assert_eq!(cycle.outcome(), (1, 1));
    let renewed: Vec<_> = m.get_all_certificates().into_iter().filter(|i| i.not_after == 2000).collect();
    assert_eq!(renewed.len(), 1);
    assert_eq!(cycle.next_step(), CycleStep::Done);
}

#[test]
fn renewal_cycle_ignores_unexpected_finish() {
    let monitor = CertificateMonitor::new();
    let mut m = CertificateManager::new("/b".to_string(), "svc".to_string());
    m.register_certificate("a".to_string(), "/mnt/a".to_string(), 0, 1000);
    let mut cycle = RenewalCycle::scan(&monitor, &m, 900);
    cycle.finish_renewal(&monitor, &mut m, 0, Some((1, 2)));
    assert_eq!(cycle.outcome(), (0, 0));
    assert_eq!(m.get_all_certificates()[0].not_before, 0);
}

#[test]
fn needs_renewal_reports_the_clock_reading() {
    let m = CertificateManager::new("/b".to_string(), "svc".to_string());
    let (due, now) = m.needs_renewal(0, 1000);
    assert!(now > 1000);
    assert_eq!(due, needs_renewal_at(0, 1000, now));
    let (due, now) = m.needs_renewal(now - 10, now + 1_000_000);
    assert!(!due);
    assert!(now > 0);
}
