use dirtables::orchestrator::{Orchestrator, Phase, SearchOutcome};
use dirtables::record::RawRecord;
use dirtables::results::{Projection, RawResults};

fn strings(items: &[&str]) -> Vec<String> {
    items.iter().map(|s| s.to_string()).collect()
}

fn person(cn: &str) -> RawRecord {
    let mut record = RawRecord::new();
    record.insert("cn".to_string(), vec![cn.to_string()]);
    record
}

fn found(ldap: &[&str], ad: &[&str]) -> SearchOutcome {
    SearchOutcome::Found(RawResults {
        ldap: ldap.iter().map(|cn| person(cn)).collect(),
        ad: ad.iter().map(|cn| person(cn)).collect(),
    })
}

fn orchestrator() -> Orchestrator {
    Orchestrator::new(Projection {
        ldap_attrs: strings(&["cn", "uid"]),
        ad_attrs: strings(&["cn"]),
        placeholder: "-".to_string(),
    })
}

#[test]
fn starts_idle_with_nothing_to_show() {
    let o = orchestrator();
    assert_eq!(o.phase(), Phase::Idle);
    assert_eq!(o.submitted(), 0);
    assert_eq!(o.accepted(), 0);
    assert_eq!(o.filter(), "");
    assert!(o.results().is_none());
}

#[test]
fn filter_change_asks_for_one_numbered_search() {
    let mut o = orchestrator();
    let request = o.on_filter_changed("ali".to_string());
    assert_eq!(request.seq, 1);
    assert_eq!(request.filter, "ali");
    assert_eq!(o.phase(), Phase::Pending);
    assert_eq!(o.filter(), "ali");
    assert_eq!(o.submitted(), 1);
    assert!(o.results().is_none());
}

#[test]
fn searches_are_numbered_upwards() {
    let mut o = orchestrator();
    let seqs: Vec<u64> =
        ["a", "ab", "abc", "ab"].iter().map(|f| o.on_filter_changed(f.to_string()).seq).collect();
    assert_eq!(seqs, vec![1, 2, 3, 4]);
    assert_eq!(o.submitted(), 4);
    assert_eq!(o.filter(), "ab");
}

#[test]
fn unchanged_filter_asks_for_a_search_again() {
    let mut o = orchestrator();
    let first = o.on_filter_changed("ali".to_string());
    assert!(o.on_search_completed(first.seq, found(&["Alice"], &[])));
    let second = o.on_filter_changed("ali".to_string());
    assert_eq!(second.seq, 2);
    assert_eq!(second.filter, "ali");
    assert_eq!(o.phase(), Phase::Pending);
}

#[test]
fn answer_to_the_pending_search_is_shown() {
    let mut o = orchestrator();
    let request = o.on_filter_changed("ali".to_string());
    assert!(o.on_search_completed(request.seq, found(&["Alice", "Alina"], &["Ali"])));
    assert_eq!(o.phase(), Phase::Ready);
    assert_eq!(o.accepted(), 1);
    let shown = o.results().unwrap();
    assert_eq!(
        shown.ldap().rows(),
        &vec![strings(&["cn", "uid"]), strings(&["Alice", "-"]), strings(&["Alina", "-"])]
    );
    assert_eq!(shown.ldap().lengths(), &vec![5, 3]);
    assert_eq!(shown.ad().rows(), &vec![strings(&["cn"]), strings(&["Ali"])]);
    assert_eq!(shown.ad().lengths(), &vec![3]);
}

#[test]
fn late_answer_to_an_earlier_filter_is_dropped() {
    let mut o = orchestrator();
    let a = o.on_filter_changed("a".to_string());
    let ab = o.on_filter_changed("ab".to_string());
    assert!(o.on_search_completed(ab.seq, found(&["Abel"], &["Abby"])));
    assert!(!o.on_search_completed(a.seq, found(&["Ann", "Abel", "Art"], &["Al"])));
    assert_eq!(o.phase(), Phase::Ready);
    assert_eq!(o.accepted(), ab.seq);
    assert_eq!(o.filter(), "ab");
    let shown = o.results().unwrap();
    assert_eq!(shown.ldap().rows(), &vec![strings(&["cn", "uid"]), strings(&["Abel", "-"])]);
    assert_eq!(shown.ldap().lengths(), &vec![4, 3]);
    assert_eq!(shown.ad().rows(), &vec![strings(&["cn"]), strings(&["Abby"])]);
}

#[test]
fn early_answer_to_a_superseded_filter_is_dropped() {
    let mut o = orchestrator();
    let a = o.on_filter_changed("a".to_string());
    let ab = o.on_filter_changed("ab".to_string());
    assert!(!o.on_search_completed(a.seq, found(&["Ann", "Abel"], &[])));
    assert_eq!(o.phase(), Phase::Pending);
    assert!(o.results().is_none());
    assert!(o.on_search_completed(ab.seq, found(&["Abel"], &[])));
    assert_eq!(o.phase(), Phase::Ready);
    assert_eq!(
        o.results().unwrap().ldap().rows(),
        &vec![strings(&["cn", "uid"]), strings(&["Abel", "-"])]
    );
}

#[test]
fn earlier_tables_stay_whole_while_a_new_search_is_pending() {
    let mut o = orchestrator();
    let first = o.on_filter_changed("al".to_string());
    assert!(o.on_search_completed(first.seq, found(&["Alexandra"], &[])));
    let _second = o.on_filter_changed("bo".to_string());
    assert_eq!(o.phase(), Phase::Pending);
    let shown = o.results().unwrap();
    assert_eq!(shown.ldap().rows(), &vec![strings(&["cn", "uid"]), strings(&["Alexandra", "-"])]);
    assert_eq!(shown.ldap().lengths(), &vec![9, 3]);
}

#[test]
fn new_answer_replaces_tables_and_widths_together() {
    let mut o = orchestrator();
    let first = o.on_filter_changed("al".to_string());
    assert!(o.on_search_completed(first.seq, found(&["Alexandra"], &["Alexandra"])));
    let second = o.on_filter_changed("bo".to_string());
    assert!(o.on_search_completed(second.seq, found(&["Bo"], &[])));
    let shown = o.results().unwrap();
    assert_eq!(shown.ldap().rows(), &vec![strings(&["cn", "uid"]), strings(&["Bo", "-"])]);
    assert_eq!(shown.ldap().lengths(), &vec![2, 3]);
    assert_eq!(shown.ad().rows(), &vec![strings(&["cn"])]);
    assert_eq!(shown.ad().lengths(), &vec![2]);
}

#[test]
fn failed_search_is_not_an_empty_result() {
    let mut none = orchestrator();
    let request = none.on_filter_changed("zzz".to_string());
    assert!(none.on_search_completed(request.seq, found(&[], &[])));
    assert_eq!(none.phase(), Phase::Ready);
    assert_eq!(none.results().unwrap().ldap().rows(), &vec![strings(&["cn", "uid"])]);

    let mut failed = orchestrator();
    let request = failed.on_filter_changed("zzz".to_string());
    assert!(failed.on_search_completed(request.seq, SearchOutcome::Failed));
    assert_eq!(failed.phase(), Phase::Failed);
    assert_eq!(failed.accepted(), 1);
    assert!(failed.results().is_none());
}

#[test]
fn failure_discards_what_was_shown() {
    let mut o = orchestrator();
    let first = o.on_filter_changed("al".to_string());
    assert!(o.on_search_completed(first.seq, found(&["Alice"], &[])));
    let second = o.on_filter_changed("ali".to_string());
    assert!(o.on_search_completed(second.seq, SearchOutcome::Failed));
    assert_eq!(o.phase(), Phase::Failed);
    assert!(o.results().is_none());
}

#[test]
fn late_failure_of_an_earlier_search_changes_nothing() {
    let mut o = orchestrator();
    let a = o.on_filter_changed("a".to_string());
    let ab = o.on_filter_changed("ab".to_string());
    assert!(o.on_search_completed(ab.seq, found(&["Abel"], &[])));
    assert!(!o.on_search_completed(a.seq, SearchOutcome::Failed));
    assert_eq!(o.phase(), Phase::Ready);
    assert_eq!(
        o.results().unwrap().ldap().rows(),
        &vec![strings(&["cn", "uid"]), strings(&["Abel", "-"])]
    );
}

#[test]
fn answer_is_taken_only_once() {
    let mut o = orchestrator();
    let request = o.on_filter_changed("al".to_string());
    assert!(o.on_search_completed(request.seq, found(&["Alice"], &[])));
    assert!(!o.on_search_completed(request.seq, found(&["Mallory"], &[])));
    assert!(!o.on_search_completed(request.seq, SearchOutcome::Failed));
    assert_eq!(o.phase(), Phase::Ready);
    assert_eq!(
        o.results().unwrap().ldap().rows(),
        &vec![strings(&["cn", "uid"]), strings(&["Alice", "-"])]
    );
}

#[test]
fn answer_without_a_search_is_dropped() {
    let mut o = orchestrator();
    assert!(!o.on_search_completed(0, found(&["Alice"], &[])));
    assert!(!o.on_search_completed(1, found(&["Alice"], &[])));
    assert_eq!(o.phase(), Phase::Idle);
    assert!(o.results().is_none());
    let request = o.on_filter_changed("al".to_string());
    assert!(!o.on_search_completed(request.seq + 1, found(&["Alice"], &[])));
    assert_eq!(o.phase(), Phase::Pending);
}

#[test]
fn search_after_a_failure_can_succeed() {
    let mut o = orchestrator();
    let first = o.on_filter_changed("al".to_string());
    assert!(o.on_search_completed(first.seq, SearchOutcome::Failed));
    let second = o.on_filter_changed("al".to_string());
    assert_eq!(o.phase(), Phase::Pending);
    assert!(o.on_search_completed(second.seq, found(&["Alice"], &[])));
    assert_eq!(o.phase(), Phase::Ready);
    assert_eq!(o.accepted(), 2);
}
