use skylar::tabs::SelectedTab;

#[test]
fn previous_on_first_tab_stays() {
    assert_eq!(SelectedTab::Metrics.previous(), SelectedTab::Metrics);
}

#[test]
fn next_on_last_tab_stays() {
    assert_eq!(SelectedTab::System.next(), SelectedTab::System);
}

#[test]
fn next_and_previous_step_by_one() {
    assert_eq!(SelectedTab::Metrics.next(), SelectedTab::Samples);
    assert_eq!(SelectedTab::Samples.next(), SelectedTab::System);
    assert_eq!(SelectedTab::System.previous(), SelectedTab::Samples);
    assert_eq!(SelectedTab::Samples.previous(), SelectedTab::Metrics);
}
