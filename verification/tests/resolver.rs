use sgx_panic_unwind::eh::{eh_context, EHAction, EHContext};

/// A table of call-site ranges, each `[start, end)` with its action.
fn decode(table: &[(usize, usize, EHAction)], context: &EHContext) -> Result<EHAction, ()> {
    for &(start, end, action) in table {
        if start <= context.ip && context.ip < end {
            return Ok(action);
        }
    }
    Err(())
}

#[test]
fn return_address_is_looked_up_one_below() {
    assert_eq!(eh_context(0x1010, 0, 0x1000), Ok(EHContext { ip: 0x100f, func_start: 0x1000 }));
}

#[test]
fn ip_before_instruction_is_looked_up_unchanged() {
    assert_eq!(eh_context(0x1010, 1, 0x1000), Ok(EHContext { ip: 0x1010, func_start: 0x1000 }));
    assert_eq!(eh_context(0x1010, -1, 0x1000), Ok(EHContext { ip: 0x1010, func_start: 0x1000 }));
    assert_eq!(eh_context(0x1010, 7, 0x1000), Ok(EHContext { ip: 0x1010, func_start: 0x1000 }));
}

#[test]
fn boundary_return_address_resolves_in_the_earlier_range() {
    let table = [
        (0x1000, 0x1010, EHAction::Cleanup(0x5000)),
        (0x1010, 0x1020, EHAction::Catch(0x6000)),
    ];
    let context = eh_context(0x1010, 0, 0x1000).unwrap();
    assert_eq!(context.ip, 0x100f);
    assert_eq!(decode(&table, &context), Ok(EHAction::Cleanup(0x5000)));

    let exact = eh_context(0x1010, 1, 0x1000).unwrap();
    assert_eq!(decode(&table, &exact), Ok(EHAction::Catch(0x6000)));
}

#[test]
fn return_address_behind_the_last_range_resolves_in_it() {
    let table = [(0x1000, 0x1010, EHAction::NoAction), (0x1010, 0x1020, EHAction::Terminate)];
    let context = eh_context(0x1020, 0, 0x1000).unwrap();
    assert_eq!(decode(&table, &context), Ok(EHAction::Terminate));
}

#[test]
fn lookup_below_the_function_is_refused() {
    assert_eq!(eh_context(0x1000, 0, 0x1000), Err(()));
    assert_eq!(eh_context(0x0fff, 1, 0x1000), Err(()));
    assert_eq!(eh_context(0x0800, 0, 0x1000), Err(()));
}

#[test]
fn lookup_at_the_function_start_is_accepted() {
    assert_eq!(eh_context(0x1000, 1, 0x1000), Ok(EHContext { ip: 0x1000, func_start: 0x1000 }));
    assert_eq!(eh_context(0x1001, 0, 0x1000), Ok(EHContext { ip: 0x1000, func_start: 0x1000 }));
}

#[test]
fn null_return_address_is_refused() {
    assert_eq!(eh_context(0, 0, 0), Err(()));
    assert_eq!(eh_context(0, 1, 0), Ok(EHContext { ip: 0, func_start: 0 }));
}

#[test]
fn highest_address_is_handled() {
    assert_eq!(
        eh_context(usize::MAX, 0, 0),
        Ok(EHContext { ip: usize::MAX - 1, func_start: 0 })
    );
    assert_eq!(
        eh_context(usize::MAX, 1, usize::MAX),
        Ok(EHContext { ip: usize::MAX, func_start: usize::MAX })
    );
    assert_eq!(eh_context(usize::MAX, 0, usize::MAX), Err(()));
}
