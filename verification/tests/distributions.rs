use tax_bucket::{
    apply_return_of_capital_with_cap, rollover_distribution, track_cost_basis,
    update_tax_year_accumulator, Address, DataKey2, EventData, EventKind, EventTopic, OfferingId,
    Symbol, TaxBucketResult, TaxEvent, TaxLedger, TaxYearSummary, EVENT_TAX_LOT_V1,
    EVENT_TAX_RECLASSIFY, EVENT_TAX_ROLLOVER,
};

fn address(strkey: &str) -> Address {
    Address { strkey: strkey.to_string() }
}

fn setup_ledger() -> (TaxLedger, OfferingId, Address) {
    let offering_id = OfferingId {
        issuer: address("GISSUER"),
        namespace: Symbol { text: "def".to_string() },
        token: address("CTOKEN"),
    };
    (TaxLedger::new(), offering_id, address("GHOLDER"))
}

fn topic(kind: EventKind, offering_id: &OfferingId) -> EventTopic {
    EventTopic {
        kind,
        issuer: offering_id.issuer.clone(),
        namespace: offering_id.namespace.clone(),
        token: offering_id.token.clone(),
    }
}

fn kinds(ledger: &TaxLedger) -> Vec<EventKind> {
    ledger.events().iter().map(|e| e.topic.kind).collect()
}

#[test]
fn test_track_and_rollover_within_basis() {
    let (mut ledger, offering_id, holder) = setup_ledger();

    track_cost_basis(&mut ledger, &offering_id, &holder, 100_000);
    let result = rollover_distribution(&mut ledger, &offering_id, &holder, 30_000, 1, 1000);

    assert_eq!(result.return_of_capital, 30_000);
    assert_eq!(result.capital_gains, 0);

    let remaining: i128 = ledger.remaining_basis(&offering_id, &holder).unwrap();
    assert_eq!(remaining, 70_000);
}

#[test]
fn test_rollover_exact_basis() {
    let (mut ledger, offering_id, holder) = setup_ledger();

    track_cost_basis(&mut ledger, &offering_id, &holder, 50_000);
    let result = rollover_distribution(&mut ledger, &offering_id, &holder, 50_000, 1, 1000);

    assert_eq!(result.return_of_capital, 50_000);
    assert_eq!(result.capital_gains, 0);

    let remaining: i128 = ledger.remaining_basis(&offering_id, &holder).unwrap();
    assert_eq!(remaining, 0);
}

#[test]
fn test_rollover_exceeds_basis_emits_reclassify() {
    let (mut ledger, offering_id, holder) = setup_ledger();

    track_cost_basis(&mut ledger, &offering_id, &holder, 30_000);
    let result = rollover_distribution(&mut ledger, &offering_id, &holder, 100_000, 1, 1000);

    assert_eq!(result.return_of_capital, 30_000);
    assert_eq!(result.capital_gains, 70_000);

    let remaining: i128 = ledger.remaining_basis(&offering_id, &holder).unwrap();
    assert_eq!(remaining, 0);

    let reclassify_events = ledger
        .events()
        .iter()
        .filter(|e| e.topic == topic(EVENT_TAX_RECLASSIFY, &offering_id))
        .count();
    assert!(reclassify_events > 0, "expected tax_recls event");
}

#[test]
fn test_rollover_zero_basis() {
    let (mut ledger, offering_id, holder) = setup_ledger();

    let result = rollover_distribution(&mut ledger, &offering_id, &holder, 50_000, 1, 1000);

    assert_eq!(result.return_of_capital, 0);
    assert_eq!(result.capital_gains, 50_000);
}

#[test]
fn test_rollover_zero_amount() {
    let (mut ledger, offering_id, holder) = setup_ledger();

    track_cost_basis(&mut ledger, &offering_id, &holder, 100_000);
    let result = rollover_distribution(&mut ledger, &offering_id, &holder, 0, 1, 1000);

    assert_eq!(result.return_of_capital, 0);
    assert_eq!(result.capital_gains, 0);

    let remaining: i128 = ledger.remaining_basis(&offering_id, &holder).unwrap();
    assert_eq!(remaining, 100_000);
}

#[test]
fn test_apply_return_of_capital_with_cap_multiple_distributions() {
    let (mut ledger, offering_id, holder) = setup_ledger();

    track_cost_basis(&mut ledger, &offering_id, &holder, 100_000);

    let r1 =
        apply_return_of_capital_with_cap(&mut ledger, &offering_id, &holder, 40_000, 1, 1000);
    assert_eq!(r1.return_of_capital, 40_000);
    assert_eq!(r1.capital_gains, 0);

    let r2 =
        apply_return_of_capital_with_cap(&mut ledger, &offering_id, &holder, 30_000, 2, 2000);
    assert_eq!(r2.return_of_capital, 30_000);
    assert_eq!(r2.capital_gains, 0);

    let r3 =
        apply_return_of_capital_with_cap(&mut ledger, &offering_id, &holder, 50_000, 3, 3000);
    assert_eq!(r3.return_of_capital, 30_000);
    assert_eq!(r3.capital_gains, 20_000);

    let r4 =
        apply_return_of_capital_with_cap(&mut ledger, &offering_id, &holder, 10_000, 4, 4000);
    assert_eq!(r4.return_of_capital, 0);
    assert_eq!(r4.capital_gains, 10_000);
}

#[test]
fn test_reclassify_event_contains_correct_data() {
    let (mut ledger, offering_id, holder) = setup_ledger();

    track_cost_basis(&mut ledger, &offering_id, &holder, 25_000);

    apply_return_of_capital_with_cap(&mut ledger, &offering_id, &holder, 100_000, 1, 5000);

    let found =
        ledger.events().iter().any(|e| e.topic == topic(EVENT_TAX_RECLASSIFY, &offering_id));
    assert!(found, "expected tax_recls event");
}

#[test]
fn capped_distribution_publishes_three_events_in_order() {
    let (mut ledger, offering_id, holder) = setup_ledger();
    track_cost_basis(&mut ledger, &offering_id, &holder, 25_000);
    apply_return_of_capital_with_cap(&mut ledger, &offering_id, &holder, 100_000, 7, 5000);

    let expected = vec![
        TaxEvent {
            topic: topic(EVENT_TAX_RECLASSIFY, &offering_id),
            holder: holder.clone(),
            data: EventData::Reclassify { capped_amount: 25_000, reclassified_amount: 75_000 },
        },
        TaxEvent {
            topic: topic(EVENT_TAX_ROLLOVER, &offering_id),
            holder: holder.clone(),
            data: EventData::Rollover { previous_basis: 25_000, new_basis: 0 },
        },
        TaxEvent {
            topic: topic(EVENT_TAX_LOT_V1, &offering_id),
            holder: holder.clone(),
            data: EventData::Lot {
                return_of_capital: 25_000,
                capital_gains: 75_000,
                amount: 100_000,
                period_id: 7,
                timestamp: 5000,
            },
        },
    ];
    assert_eq!(*ledger.events(), expected);
}

#[test]
fn distribution_below_the_cap_publishes_the_lot_alone() {
    let (mut ledger, offering_id, holder) = setup_ledger();
    track_cost_basis(&mut ledger, &offering_id, &holder, 10);
    apply_return_of_capital_with_cap(&mut ledger, &offering_id, &holder, 10, 1, 1);
    assert_eq!(kinds(&ledger), vec![EVENT_TAX_LOT_V1]);
}

#[test]
fn without_basis_the_whole_amount_is_reclassified() {
    for basis in [None, Some(0), Some(-4)] {
        let (mut ledger, offering_id, holder) = setup_ledger();
        if let Some(cost_basis) = basis {
            track_cost_basis(&mut ledger, &offering_id, &holder, cost_basis);
        }
        apply_return_of_capital_with_cap(&mut ledger, &offering_id, &holder, 50_000, 3, 9);
        let expected = vec![
            TaxEvent {
                topic: topic(EVENT_TAX_RECLASSIFY, &offering_id),
                holder: holder.clone(),
                data: EventData::Reclassify { capped_amount: 0, reclassified_amount: 50_000 },
            },
            TaxEvent {
                topic: topic(EVENT_TAX_LOT_V1, &offering_id),
                holder: holder.clone(),
                data: EventData::Lot {
                    return_of_capital: 0,
                    capital_gains: 50_000,
                    amount: 50_000,
                    period_id: 3,
                    timestamp: 9,
                },
            },
        ];
        assert_eq!(*ledger.events(), expected);
    }
}

#[test]
fn without_excess_nothing_is_reclassified() {
    let (mut ledger, offering_id, holder) = setup_ledger();
    apply_return_of_capital_with_cap(&mut ledger, &offering_id, &holder, 0, 1, 1);
    apply_return_of_capital_with_cap(&mut ledger, &offering_id, &holder, -5, 2, 2);
    assert_eq!(kinds(&ledger), vec![EVENT_TAX_LOT_V1, EVENT_TAX_LOT_V1]);
}

#[test]
fn holder_without_basis_gets_no_basis_entry() {
    let (mut ledger, offering_id, holder) = setup_ledger();
    apply_return_of_capital_with_cap(&mut ledger, &offering_id, &holder, 5, 1, 1);
    assert_eq!(ledger.remaining_basis(&offering_id, &holder), None);
}

#[test]
fn negative_basis_is_left_alone() {
    let (mut ledger, offering_id, holder) = setup_ledger();
    track_cost_basis(&mut ledger, &offering_id, &holder, -4);
    let result = apply_return_of_capital_with_cap(&mut ledger, &offering_id, &holder, 5, 1, 1);
    assert_eq!(result, TaxBucketResult { return_of_capital: 0, capital_gains: 5 });
    assert_eq!(ledger.remaining_basis(&offering_id, &holder), Some(-4));
}

#[test]
fn negative_amount_adds_to_the_basis() {
    let (mut ledger, offering_id, holder) = setup_ledger();
    track_cost_basis(&mut ledger, &offering_id, &holder, 100);
    let result = apply_return_of_capital_with_cap(&mut ledger, &offering_id, &holder, -30, 1, 1);
    assert_eq!(result, TaxBucketResult { return_of_capital: -30, capital_gains: 0 });
    assert_eq!(ledger.remaining_basis(&offering_id, &holder), Some(130));
}

#[test]
fn basis_out_of_range_falls_to_zero() {
    let (mut ledger, offering_id, holder) = setup_ledger();
    track_cost_basis(&mut ledger, &offering_id, &holder, i128::MAX);
    let result = apply_return_of_capital_with_cap(&mut ledger, &offering_id, &holder, -1, 1, 1);
    assert_eq!(result, TaxBucketResult { return_of_capital: -1, capital_gains: 0 });
    assert_eq!(ledger.remaining_basis(&offering_id, &holder), Some(0));
}

#[test]
fn largest_amount_is_split_exactly() {
    let (mut ledger, offering_id, holder) = setup_ledger();
    track_cost_basis(&mut ledger, &offering_id, &holder, 1);
    let result =
        apply_return_of_capital_with_cap(&mut ledger, &offering_id, &holder, i128::MAX, 1, 1);
    assert_eq!(
        result,
        TaxBucketResult { return_of_capital: 1, capital_gains: i128::MAX - 1 }
    );
}

#[test]
fn buckets_add_up_and_stay_under_the_cap() {
    for basis in [-5i128, 0, 1, 40, 100] {
        for amount in [-20i128, 0, 1, 39, 40, 41, 1000] {
            let (mut ledger, offering_id, holder) = setup_ledger();
            track_cost_basis(&mut ledger, &offering_id, &holder, basis);
            let result = apply_return_of_capital_with_cap(
                &mut ledger,
                &offering_id,
                &holder,
                amount,
                1,
                1,
            );
            assert_eq!(result.return_of_capital + result.capital_gains, amount);
            assert!(result.return_of_capital <= basis.max(0));
            let left = ledger.remaining_basis(&offering_id, &holder).unwrap();
            assert_eq!(left, basis - result.return_of_capital);
        }
    }
}

#[test]
fn paying_in_parts_makes_no_difference() {
    let (mut at_once, offering_id, holder) = setup_ledger();
    let (mut in_parts, _, _) = setup_ledger();
    track_cost_basis(&mut at_once, &offering_id, &holder, 50);
    track_cost_basis(&mut in_parts, &offering_id, &holder, 50);
    let whole = rollover_distribution(&mut at_once, &offering_id, &holder, 80, 1, 0);
    let first = rollover_distribution(&mut in_parts, &offering_id, &holder, 30, 1, 0);
    let second = rollover_distribution(&mut in_parts, &offering_id, &holder, 50, 2, 0);
    assert_eq!(whole.return_of_capital, first.return_of_capital + second.return_of_capital);
    assert_eq!(whole.capital_gains, first.capital_gains + second.capital_gains);
    assert_eq!(
        at_once.tax_year(&offering_id, &holder, 1970),
        in_parts.tax_year(&offering_id, &holder, 1970)
    );
}

#[test]
fn recording_a_basis_replaces_the_one_before() {
    let (mut ledger, offering_id, holder) = setup_ledger();
    track_cost_basis(&mut ledger, &offering_id, &holder, 10);
    track_cost_basis(&mut ledger, &offering_id, &holder, 25);
    assert_eq!(ledger.remaining_basis(&offering_id, &holder), Some(25));
    assert!(ledger.events().is_empty());
}

#[test]
fn holders_and_offerings_are_kept_apart() {
    let (mut ledger, offering_id, holder) = setup_ledger();
    let other_holder = address("GOTHER");
    let other_offering = OfferingId {
        issuer: offering_id.issuer.clone(),
        namespace: Symbol { text: "abc".to_string() },
        token: offering_id.token.clone(),
    };
    track_cost_basis(&mut ledger, &offering_id, &holder, 100);
    track_cost_basis(&mut ledger, &offering_id, &other_holder, 200);
    track_cost_basis(&mut ledger, &other_offering, &holder, 300);

    rollover_distribution(&mut ledger, &offering_id, &holder, 60, 1, 0);

    assert_eq!(ledger.remaining_basis(&offering_id, &holder), Some(40));
    assert_eq!(ledger.remaining_basis(&offering_id, &other_holder), Some(200));
    assert_eq!(ledger.remaining_basis(&other_offering, &holder), Some(300));
    assert_eq!(ledger.tax_year(&offering_id, &other_holder, 1970), None);
    assert_eq!(ledger.tax_year(&other_offering, &holder, 1970), None);
}

#[test]
fn accumulator_adds_to_the_entry_of_its_year() {
    let (mut ledger, offering_id, holder) = setup_ledger();
    update_tax_year_accumulator(&mut ledger, &offering_id, &holder, 2024, 1, 2, 3);
    update_tax_year_accumulator(&mut ledger, &offering_id, &holder, 2024, 10, 20, 30);
    update_tax_year_accumulator(&mut ledger, &offering_id, &holder, 2025, 5, 0, -5);
    assert_eq!(
        ledger.tax_year(&offering_id, &holder, 2024),
        Some(TaxYearSummary { ordinary_income: 11, capital_gains: 22, return_of_capital: 33 })
    );
    assert_eq!(
        ledger.tax_year(&offering_id, &holder, 2025),
        Some(TaxYearSummary { ordinary_income: 5, capital_gains: 0, return_of_capital: -5 })
    );
    assert_eq!(ledger.tax_year(&offering_id, &holder, 2023), None);
}

#[test]
fn accumulator_saturates_at_both_ends() {
    let (mut ledger, offering_id, holder) = setup_ledger();
    update_tax_year_accumulator(
        &mut ledger,
        &offering_id,
        &holder,
        2024,
        i128::MAX,
        i128::MIN,
        i128::MAX,
    );
    update_tax_year_accumulator(&mut ledger, &offering_id, &holder, 2024, 1, -1, -1);
    assert_eq!(
        ledger.tax_year(&offering_id, &holder, 2024),
        Some(TaxYearSummary {
            ordinary_income: i128::MAX,
            capital_gains: i128::MIN,
            return_of_capital: i128::MAX - 1,
        })
    );
}

#[test]
fn rollover_counts_toward_the_fiscal_year() {
    let (mut ledger, offering_id, holder) = setup_ledger();
    track_cost_basis(&mut ledger, &offering_id, &holder, 100);
    // 1 January 2024 and 31 December 2024.
    rollover_distribution(&mut ledger, &offering_id, &holder, 70, 1, 1_704_067_200);
    rollover_distribution(&mut ledger, &offering_id, &holder, 70, 2, 1_735_689_599);
    // 1 January 2025.
    rollover_distribution(&mut ledger, &offering_id, &holder, 5, 3, 1_735_689_600);
    assert_eq!(
        ledger.tax_year(&offering_id, &holder, 2024),
        Some(TaxYearSummary { ordinary_income: 0, capital_gains: 40, return_of_capital: 100 })
    );
    assert_eq!(
        ledger.tax_year(&offering_id, &holder, 2025),
        Some(TaxYearSummary { ordinary_income: 0, capital_gains: 5, return_of_capital: 0 })
    );
}

#[test]
fn rollover_follows_the_configured_start_month() {
    let (mut ledger, offering_id, holder) = setup_ledger();
    assert_eq!(ledger.fiscal_start_month(&offering_id), 1);
    ledger.set_fiscal_start_month(&offering_id, 4);
    assert_eq!(ledger.fiscal_start_month(&offering_id), 4);
    // 1 January 2024 lies in the fiscal year that began in April 2023.
    rollover_distribution(&mut ledger, &offering_id, &holder, 9, 1, 1_704_067_200);
    assert_eq!(
        ledger.tax_year(&offering_id, &holder, 2023),
        Some(TaxYearSummary { ordinary_income: 0, capital_gains: 9, return_of_capital: 0 })
    );
    assert_eq!(ledger.tax_year(&offering_id, &holder, 2024), None);
}

#[test]
fn applying_alone_counts_toward_no_year() {
    let (mut ledger, offering_id, holder) = setup_ledger();
    apply_return_of_capital_with_cap(&mut ledger, &offering_id, &holder, 9, 1, u64::MAX);
    assert_eq!(ledger.tax_year(&offering_id, &holder, 1970), None);
    assert_eq!(kinds(&ledger), vec![EVENT_TAX_RECLASSIFY, EVENT_TAX_LOT_V1]);
}

#[test]
fn event_kinds_have_their_topic_names() {
    assert_eq!(EVENT_TAX_ROLLOVER.symbol(), "tax_roll");
    assert_eq!(EVENT_TAX_LOT_V1.symbol(), "tax_lot_v1");
    assert_eq!(EVENT_TAX_RECLASSIFY.symbol(), "tax_recls");
}

#[test]
fn keys_are_the_same_where_all_parts_are() {
    let (_, offering_id, holder) = setup_ledger();
    let basis = DataKey2::RemainingBasis(offering_id.clone(), holder.clone());
    let year = DataKey2::TaxYearEntry(offering_id.clone(), holder.clone(), 2024);
    let next = DataKey2::TaxYearEntry(offering_id.clone(), holder.clone(), 2025);
    let month = DataKey2::FiscalStartMonth(offering_id.clone());
    assert!(basis.same(&DataKey2::RemainingBasis(offering_id.clone(), holder.clone())));
    assert!(!basis.same(&DataKey2::RemainingBasis(offering_id.clone(), address("GOTHER"))));
    assert!(year.same(&DataKey2::TaxYearEntry(offering_id.clone(), holder.clone(), 2024)));
    assert!(!year.same(&next));
    assert!(!year.same(&basis));
    assert!(month.same(&DataKey2::FiscalStartMonth(offering_id.clone())));
    assert!(!month.same(&basis));
}

#[test]
fn payloads_are_in_published_order() {
    let lot = EventData::Lot {
        return_of_capital: 1,
        capital_gains: 2,
        amount: 3,
        period_id: 4,
        timestamp: 5,
    };
    let reclassify = EventData::Reclassify { capped_amount: 6, reclassified_amount: 7 };
    let rollover = EventData::Rollover { previous_basis: 8, new_basis: 9 };
    assert_eq!(lot.lot_payload("h"), Some(("h", 1, 2, 3, 4, 5)));
    assert_eq!(reclassify.reclassify_payload("h"), Some(("h", 6, 7)));
    assert_eq!(rollover.rollover_payload("h"), Some(("h", 8, 9)));
    assert_eq!(lot.reclassify_payload("h"), None);
    assert_eq!(lot.rollover_payload("h"), None);
    assert_eq!(reclassify.lot_payload("h"), None);
    assert_eq!(rollover.reclassify_payload("h"), None);
}

#[test]
fn each_year_counts_its_own_rollovers() {
    let (mut ledger, offering_id, holder) = setup_ledger();
    track_cost_basis(&mut ledger, &offering_id, &holder, 100);
    update_tax_year_accumulator(&mut ledger, &offering_id, &holder, 2024, 7, 1, 2);
    // 2024, 2025, and 2024 again.
    rollover_distribution(&mut ledger, &offering_id, &holder, 60, 1, 1_704_067_200);
    rollover_distribution(&mut ledger, &offering_id, &holder, 70, 2, 1_735_689_600);
    rollover_distribution(&mut ledger, &offering_id, &holder, 5, 3, 1_735_689_599);
    assert_eq!(
        ledger.tax_year(&offering_id, &holder, 2024),
        Some(TaxYearSummary { ordinary_income: 7, capital_gains: 6, return_of_capital: 62 })
    );
    assert_eq!(
        ledger.tax_year(&offering_id, &holder, 2025),
        Some(TaxYearSummary { ordinary_income: 0, capital_gains: 30, return_of_capital: 40 })
    );
}
