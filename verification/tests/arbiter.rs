use std::cell::RefCell;
use std::collections::VecDeque;
use std::rc::Rc;

use rvsim::arbiter::ArbiterBus;
use rvsim::bus::{Address, Bus, BusError, BusMaster, BusMasterRequest, BusMasterResponse};

#[derive(Debug, Default)]
struct TinyBus {
    data: [u8; 32],
}

impl Bus for TinyBus {
    fn load8(&mut self, addr: Address) -> Result<u8, BusError> {
        Ok(self.data[addr as usize])
    }

    fn store8(&mut self, addr: Address, value: u8) -> Result<(), BusError> {
        self.data[addr as usize] = value;
        Ok(())
    }
}

#[derive(Debug, Default)]
struct ScriptedMaster {
    name: &'static str,
    requests: VecDeque<BusMasterRequest>,
    completions: Vec<BusMasterResponse>,
}

impl ScriptedMaster {
    fn with_requests(
        name: &'static str,
        requests: impl IntoIterator<Item = BusMasterRequest>,
    ) -> Self {
        Self {
            name,
            requests: requests.into_iter().collect(),
            completions: Vec::new(),
        }
    }
}

impl BusMaster for ScriptedMaster {
    fn name(&self) -> &'static str {
        self.name
    }

    fn request(&mut self) -> Option<BusMasterRequest> {
        self.requests.pop_front()
    }

    fn on_response(&mut self, response: Result<BusMasterResponse, BusError>) {
        self.completions
            .push(response.expect("scripted master request should succeed"));
    }
}

#[derive(Debug)]
struct SharedMaster(Rc<RefCell<ScriptedMaster>>);

impl BusMaster for SharedMaster {
    fn name(&self) -> &'static str {
        self.0.borrow().name()
    }

    fn request(&mut self) -> Option<BusMasterRequest> {
        self.0.borrow_mut().request()
    }

    fn on_response(&mut self, response: Result<BusMasterResponse, BusError>) {
        self.0.borrow_mut().on_response(response);
    }
}

#[test]
fn round_robin_grants_pending_masters() {
    let first = Rc::new(RefCell::new(ScriptedMaster::with_requests(
        "first",
        [BusMasterRequest::Store32 {
            addr: 0,
            value: 0x1122_3344,
        }],
    )));
    let second = Rc::new(RefCell::new(ScriptedMaster::with_requests(
        "second",
        [BusMasterRequest::Store32 {
            addr: 4,
            value: 0x5566_7788,
        }],
    )));

    let mut arbiter = ArbiterBus::new(TinyBus::default());
    arbiter.add_master(SharedMaster(Rc::clone(&first)));
    arbiter.add_master(SharedMaster(Rc::clone(&second)));

    arbiter.tick();
    arbiter.tick();
    arbiter.tick();

    assert_eq!(
        arbiter.load32(0).expect("first store should land"),
        0x1122_3344
    );
    assert_eq!(
        arbiter.load32(4).expect("second store should land"),
        0x5566_7788
    );
    assert_eq!(
        first.borrow().completions,
        vec![BusMasterResponse::StoreComplete]
    );
    assert_eq!(
        second.borrow().completions,
        vec![BusMasterResponse::StoreComplete]
    );
    assert_eq!(arbiter.stats().master_grants, 2);
}

#[test]
fn cpu_access_stalls_when_master_claims_cycle() {
    let master = Rc::new(RefCell::new(ScriptedMaster::with_requests(
        "writer",
        [BusMasterRequest::Store32 {
            addr: 0,
            value: 0xdead_beef,
        }],
    )));
    let mut arbiter = ArbiterBus::new(TinyBus::default());
    arbiter.add_master(SharedMaster(Rc::clone(&master)));

    arbiter.tick();

    let error = arbiter
        .load32(0)
        .expect_err("CPU should wait for a granted master cycle");
    assert_eq!(
        error,
        BusError::Busy {
            remaining_cycles: 1
        }
    );

    arbiter.tick();
    assert_eq!(
        arbiter.load32(0).expect("CPU should proceed next cycle"),
        0xdead_beef
    );
    assert_eq!(arbiter.stats().cpu_stall_cycles, 1);
}
