use vstd::prelude::*;

verus! {

/// Body capabilities a spawned agent can be composed of.
#[derive(Clone, Copy, PartialEq, Eq, Structural, Debug)]
pub enum BodyPart {
    Move,
    Work,
    Carry,
}

/// Gatherer composition, keyed by the energy budget.
pub open spec fn gatherer_body(energy: u32) -> Option<Seq<BodyPart>> {
    if 300 <= energy <= 549 {
        Some(seq![BodyPart::Move, BodyPart::Move, BodyPart::Work, BodyPart::Work])
    } else if 550 <= energy <= 749 {
        Some(
            seq![
                BodyPart::Move,
                BodyPart::Move,
                BodyPart::Move,
                BodyPart::Work,
                BodyPart::Work,
                BodyPart::Work,
                BodyPart::Work,
            ],
        )
    } else if energy >= 750 {
        Some(
            seq![
                BodyPart::Move,
                BodyPart::Move,
                BodyPart::Move,
                BodyPart::Move,
                BodyPart::Move,
                BodyPart::Work,
                BodyPart::Work,
                BodyPart::Work,
                BodyPart::Work,
                BodyPart::Work,
            ],
        )
    } else {
        None
    }
}

/// Transporter composition, keyed by the energy budget.
pub open spec fn transporter_body(energy: u32) -> Option<Seq<BodyPart>> {
    if 300 <= energy <= 549 {
        Some(
            seq![
                BodyPart::Move,
                BodyPart::Move,
                BodyPart::Carry,
                BodyPart::Carry,
                BodyPart::Work,
            ],
        )
    } else if 550 <= energy <= 799 {
        Some(
            seq![
                BodyPart::Move,
                BodyPart::Move,
                BodyPart::Move,
                BodyPart::Carry,
                BodyPart::Carry,
                BodyPart::Carry,
                BodyPart::Carry,
                BodyPart::Work,
                BodyPart::Work,
            ],
        )
    } else if energy >= 800 {
        Some(
            seq![
                BodyPart::Move,
                BodyPart::Move,
                BodyPart::Move,
                BodyPart::Move,
                BodyPart::Carry,
                BodyPart::Carry,
                BodyPart::Carry,
                BodyPart::Carry,
                BodyPart::Work,
                BodyPart::Work,
                BodyPart::Work,
                BodyPart::Work,
            ],
        )
    } else {
        None
    }
}

/// The spawn decision: spawn only when the stock is topped up or a
/// critical role is missing, and the population is under its cap; spawn
/// a gatherer while nodes outnumber gatherers, else a transporter.
pub open spec fn spawn_plan(
    energy_available: u32,
    energy_capacity: u32,
    gatherers: usize,
    transporters: usize,
    nodes: usize,
    population: usize,
) -> Option<Seq<BodyPart>> {
    if (energy_available == energy_capacity || gatherers == 0 || transporters == 0) && population
        < 6 {
        if gatherers < nodes {
            gatherer_body(energy_available)
        } else {
            transporter_body(energy_available)
        }
    } else {
        None
    }
}

/// Decide whether to spawn a new agent and with which body.
pub fn plan_spawn(
    energy_available: u32,
    energy_capacity: u32,
    gatherers: usize,
    transporters: usize,
    nodes: usize,
    population: usize,
) -> (r: Option<Vec<BodyPart>>)
    ensures
        match r {
            Some(v) => spawn_plan(
                energy_available,
                energy_capacity,
                gatherers,
                transporters,
                nodes,
                population,
            ) == Some(v@),
            None => spawn_plan(
                energy_available,
                energy_capacity,
                gatherers,
                transporters,
                nodes,
                population,
            ) is None,
        },
{
    if !((energy_available == energy_capacity || gatherers == 0 || transporters == 0) && population
        < 6) {
        return None;
    }
    if gatherers < nodes {
        if 300 <= energy_available && energy_available <= 549 {
            let v = vec![BodyPart::Move, BodyPart::Move, BodyPart::Work, BodyPart::Work];
            assert(v@ == gatherer_body(energy_available).unwrap());
            Some(v)
        } else if 550 <= energy_available && energy_available <= 749 {
            let v = vec![
                BodyPart::Move,
                BodyPart::Move,
                BodyPart::Move,
                BodyPart::Work,
                BodyPart::Work,
                BodyPart::Work,
                BodyPart::Work,
            ];
            assert(v@ == gatherer_body(energy_available).unwrap());
            Some(v)
        } else if energy_available >= 750 {
            let v = vec![
                BodyPart::Move,
                BodyPart::Move,
                BodyPart::Move,
                BodyPart::Move,
                BodyPart::Move,
                BodyPart::Work,
                BodyPart::Work,
                BodyPart::Work,
                BodyPart::Work,
                BodyPart::Work,
            ];
            assert(v@ == gatherer_body(energy_available).unwrap());
            Some(v)
        } else {
            None
        }
    } else {
        if 300 <= energy_available && energy_available <= 549 {
            let v = vec![
                BodyPart::Move,
                BodyPart::Move,
                BodyPart::Carry,
                BodyPart::Carry,
                BodyPart::Work,
            ];
            assert(v@ == transporter_body(energy_available).unwrap());
            Some(v)
        } else if 550 <= energy_available && energy_available <= 799 {
            let v = vec![
                BodyPart::Move,
                BodyPart::Move,
                BodyPart::Move,
                BodyPart::Carry,
                BodyPart::Carry,
                BodyPart::Carry,
                BodyPart::Carry,
                BodyPart::Work,
                BodyPart::Work,
            ];
            assert(v@ == transporter_body(energy_available).unwrap());
            Some(v)
        } else if energy_available >= 800 {
            let v = vec![
                BodyPart::Move,
                BodyPart::Move,
                BodyPart::Move,
                BodyPart::Move,
                BodyPart::Carry,
                BodyPart::Carry,
                BodyPart::Carry,
                BodyPart::Carry,
                BodyPart::Work,
                BodyPart::Work,
                BodyPart::Work,
                BodyPart::Work,
            ];
            assert(v@ == transporter_body(energy_available).unwrap());
            Some(v)
        } else {
            None
        }
    }
}

} // verus!
